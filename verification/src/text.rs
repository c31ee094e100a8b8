use sha2::Digest;
use vstd::prelude::*;
use vstd::string::StringSliceAdditionalSpecFns;
use vstd::string::StrSliceExecFns;

verus! {

/// Unicode `White_Space`, the set that `char::is_whitespace` and `str::trim` use.
pub open spec fn is_white_space(c: char) -> bool {
    let u = c as int;
    ||| 0x09 <= u <= 0x0D
    ||| u == 0x20
    ||| u == 0x85
    ||| u == 0xA0
    ||| u == 0x1680
    ||| 0x2000 <= u <= 0x200A
    ||| u == 0x2028
    ||| u == 0x2029
    ||| u == 0x202F
    ||| u == 0x205F
    ||| u == 0x3000
}

/// The text without its leading white space.
pub open spec fn trim_start(s: Seq<char>) -> Seq<char>
    decreases s.len(),
{
    if s.len() > 0 && is_white_space(s[0]) {
        trim_start(s.drop_first())
    } else {
        s
    }
}

/// The text without its trailing white space.
pub open spec fn trim_end(s: Seq<char>) -> Seq<char>
    decreases s.len(),
{
    if s.len() > 0 && is_white_space(s.last()) {
        trim_end(s.drop_last())
    } else {
        s
    }
}

/// `str::trim`: the text without leading and trailing white space.
pub open spec fn trim(s: Seq<char>) -> Seq<char> {
    trim_end(trim_start(s))
}

/// `replace("\r\n", "\n")`: every CR LF pair, read left to right, becomes LF.
pub open spec fn crlf_to_lf(s: Seq<char>) -> Seq<char>
    decreases s.len(),
{
    if s.len() == 0 {
        Seq::empty()
    } else if s.len() >= 2 && s[0] == '\r' && s[1] == '\n' {
        seq!['\n'] + crlf_to_lf(s.skip(2))
    } else {
        seq![s[0]] + crlf_to_lf(s.skip(1))
    }
}

/// `replace('\r', "\n")`: every remaining CR becomes LF.
pub open spec fn cr_to_lf(s: Seq<char>) -> Seq<char> {
    s.map_values(|c: char| if c == '\r' { '\n' } else { c })
}

/// The normal form of an idea's text: trimmed, with every line ending as LF.
pub open spec fn normalized_text(s: Seq<char>) -> Seq<char> {
    cr_to_lf(crlf_to_lf(trim(s)))
}

/// The SHA-256 digest of the bytes, as `sha2::Sha256` computes it.
pub uninterp spec fn sha256(data: Seq<u8>) -> Seq<u8>;

/// Calls `sha2::Sha256::digest`. Claims: the 32-byte result is the SHA-256
/// digest of the input bytes (a function of them alone).
#[verifier::external_body]
pub(crate) fn sha256_digest(data: &[u8]) -> (h: [u8; 32])
    ensures
        h@ == sha256(data@),
{
    sha2::Sha256::digest(data).into()
}

/// Collects characters into a `String` (`FromIterator<char>`).
#[verifier::external_body]
pub(crate) fn string_from_chars(chars: &Vec<char>) -> (s: String)
    ensures
        s@ == chars@,
{
    chars.iter().collect()
}

/// `char::is_whitespace`.
pub fn is_whitespace_char(c: char) -> (r: bool)
    ensures
        r == is_white_space(c),
{
    let u = c as u32;
    (0x09 <= u && u <= 0x0D) || u == 0x20 || u == 0x85 || u == 0xA0 || u == 0x1680
        || (0x2000 <= u && u <= 0x200A) || u == 0x2028 || u == 0x2029 || u == 0x202F
        || u == 0x205F || u == 0x3000
}

proof fn lemma_trim_start_skip(s: Seq<char>, i: int)
    requires
        0 <= i <= s.len(),
        forall|j: int| 0 <= j < i ==> is_white_space(s[j]),
    ensures
        trim_start(s) == trim_start(s.skip(i)),
    decreases i,
{
    if i > 0 {
        assert(s.drop_first().skip(i - 1) =~= s.skip(i));
        lemma_trim_start_skip(s.drop_first(), i - 1);
    } else {
        assert(s.skip(0) =~= s);
    }
}

proof fn lemma_trim_end_take(s: Seq<char>, k: int)
    requires
        0 <= k <= s.len(),
        forall|j: int| k <= j < s.len() ==> is_white_space(s[j]),
    ensures
        trim_end(s) == trim_end(s.take(k)),
    decreases s.len() - k,
{
    if k < s.len() {
        assert(s.drop_last().take(k) =~= s.take(k));
        lemma_trim_end_take(s.drop_last(), k);
    } else {
        assert(s.take(k) =~= s);
    }
}

proof fn lemma_cr_to_lf_concat(a: Seq<char>, b: Seq<char>)
    ensures
        cr_to_lf(a + b) == cr_to_lf(a) + cr_to_lf(b),
{
    assert(cr_to_lf(a + b) =~= cr_to_lf(a) + cr_to_lf(b));
}

/// The characters of the text, in order.
pub fn chars_of(text: &str) -> (v: Vec<char>)
    ensures
        v@ == text@,
{
    let n = text.unicode_len();
    let mut v: Vec<char> = Vec::new();
    let mut i: usize = 0;
    while i < n
        invariant
            n == text@.len(),
            i <= n,
            v@ == text@.take(i as int),
        decreases n - i,
    {
        let c = text.get_char(i);
        v.push(c);
        assert(text@.take(i + 1) =~= text@.take(i as int).push(c));
        i = i + 1;
    }
    assert(text@.take(n as int) =~= text@);
    v
}

/// The characters of `s` without leading and trailing white space.
pub fn trim_chars(s: &Vec<char>) -> (t: Vec<char>)
    ensures
        t@ == trim(s@),
{
    let n = s.len();
    let mut start: usize = 0;
    while start < n && is_whitespace_char(s[start])
        invariant
            n == s@.len(),
            start <= n,
            forall|j: int| 0 <= j < start ==> is_white_space(s@[j]),
        decreases n - start,
    {
        start = start + 1;
    }
    proof {
        lemma_trim_start_skip(s@, start as int);
        if start < n {
            assert(trim_start(s@.skip(start as int)) == s@.skip(start as int));
        } else {
            assert(s@.skip(start as int) =~= Seq::<char>::empty());
        }
    }
    let ghost u = s@.skip(start as int);
    let mut end: usize = n;
    while end > start && is_whitespace_char(s[end - 1])
        invariant
            n == s@.len(),
            start <= end <= n,
            u == s@.skip(start as int),
            forall|j: int| end - start <= j < u.len() ==> is_white_space(u[j]),
        decreases end - start,
    {
        end = end - 1;
    }
    proof {
        lemma_trim_end_take(u, end - start);
        let w = u.take(end - start);
        if end > start {
            assert(w.last() == s@[end - 1]);
        }
        assert(trim_end(w) == w);
    }
    let mut t: Vec<char> = Vec::new();
    let mut i: usize = start;
    while i < end
        invariant
            n == s@.len(),
            start <= i <= end <= n,
            u == s@.skip(start as int),
            t@ == u.take(i - start),
        decreases end - i,
    {
        t.push(s[i]);
        assert(u.take(i + 1 - start) =~= u.take(i - start).push(s@[i as int]));
        i = i + 1;
    }
    t
}

/// Rewrites line endings: CR LF becomes LF, then a lone CR becomes LF.
pub fn normalize_line_endings(s: &Vec<char>) -> (t: Vec<char>)
    ensures
        t@ == cr_to_lf(crlf_to_lf(s@)),
{
    let n = s.len();
    let mut t: Vec<char> = Vec::new();
    let mut i: usize = 0;
    proof {
        assert(s@.skip(0) =~= s@);
        assert(t@ + cr_to_lf(crlf_to_lf(s@)) =~= cr_to_lf(crlf_to_lf(s@)));
    }
    while i < n
        invariant
            n == s@.len(),
            i <= n,
            cr_to_lf(crlf_to_lf(s@)) == t@ + cr_to_lf(crlf_to_lf(s@.skip(i as int))),
        decreases n - i,
    {
        let ghost rest = s@.skip(i as int);
        if s[i] == '\r' && i + 1 < n && s[i + 1] == '\n' {
            proof {
                assert(rest.skip(2) =~= s@.skip(i + 2));
                lemma_cr_to_lf_concat(seq!['\n'], crlf_to_lf(rest.skip(2)));
                assert(cr_to_lf(seq!['\n']) =~= seq!['\n']);
            }
            t.push('\n');
            proof {
                assert(t@ + cr_to_lf(crlf_to_lf(s@.skip(i + 2))) =~= (t@.drop_last() + seq!['\n'])
                    + cr_to_lf(crlf_to_lf(s@.skip(i + 2))));
            }
            i = i + 2;
        } else {
            let c = s[i];
            proof {
                assert(rest.skip(1) =~= s@.skip(i + 1));
                lemma_cr_to_lf_concat(seq![c], crlf_to_lf(rest.skip(1)));
                assert(cr_to_lf(seq![c]) =~= seq![if c == '\r' { '\n' } else { c }]);
            }
            if c == '\r' {
                t.push('\n');
            } else {
                t.push(c);
            }
            proof {
                let d = if c == '\r' { '\n' } else { c };
                assert(t@ + cr_to_lf(crlf_to_lf(s@.skip(i + 1))) =~= (t@.drop_last() + seq![d])
                    + cr_to_lf(crlf_to_lf(s@.skip(i + 1))));
            }
            i = i + 1;
        }
    }
    proof {
        assert(s@.skip(n as int) =~= Seq::<char>::empty());
        assert(cr_to_lf(Seq::<char>::empty()) =~= Seq::<char>::empty());
        assert(t@ + Seq::<char>::empty() =~= t@);
    }
    t
}

/// Normalizes an idea's text: trims leading and trailing white space, then
/// turns CR LF and lone CR line endings into LF.
pub fn normalize_idea_text(text: &str) -> (r: String)
    ensures
        r@ == normalized_text(text@),
{
    let chars = chars_of(text);
    let trimmed = trim_chars(&chars);
    let normal = normalize_line_endings(&trimmed);
    string_from_chars(&normal)
}

/// The length of a text in UTF-8 bytes, as `str::len` reports it.
pub open spec fn utf8_len(s: Seq<char>) -> usize {
    vstd::utf8::encode_utf8(s).len() as usize
}

/// `String::len`: the length in UTF-8 bytes.
pub fn byte_len(s: &String) -> (n: usize)
    ensures
        n == utf8_len(s@),
{
    s.as_str().len()
}

/// `String::is_empty`.
pub fn is_empty_text(s: &String) -> (b: bool)
    ensures
        b == (s@.len() == 0),
{
    s.as_str().is_empty()
}

/// Appends the elements of `s` to `v`, in order.
pub fn append_copies<T: Copy>(v: &mut Vec<T>, s: &[T])
    ensures
        final(v)@ == old(v)@ + s@,
{
    let mut i: usize = 0;
    while i < s.len()
        invariant
            i <= s@.len(),
            v@ == old(v)@ + s@.take(i as int),
        decreases s@.len() - i,
    {
        v.push(s[i]);
        assert(s@.take(i + 1) =~= s@.take(i as int).push(s@[i as int]));
        i = i + 1;
    }
    assert(s@.take(s@.len() as int) =~= s@);
}

/// A vector holding the elements of `s`.
pub fn copied_vec<T: Copy>(s: &[T]) -> (v: Vec<T>)
    ensures
        v@ == s@,
{
    let mut v: Vec<T> = Vec::new();
    append_copies(&mut v, s);
    v
}

/// The idea hash: SHA-256 of the UTF-8 bytes of the (normalized) text.
pub fn compute_idea_hash(normalized_text: &str) -> (h: [u8; 32])
    ensures
        h@ == sha256(normalized_text.spec_bytes()),
{
    let bytes = normalized_text.as_bytes();
    sha256_digest(bytes)
}

/// The text an idea's hash is taken over: its trimmed title, a line feed,
/// and its trimmed description.
pub open spec fn idea_text(title: Seq<char>, description: Seq<char>) -> Seq<char> {
    trim(title) + seq!['\n'] + trim(description)
}

/// The hash stored with an idea: SHA-256 of the normalized idea text.
pub fn hash_idea_text(title: &String, description: &String) -> (h: [u8; 32])
    ensures
        h@ == sha256(vstd::utf8::encode_utf8(normalized_text(idea_text(title@, description@)))),
{
    let t = trim_chars(&chars_of(title.as_str()));
    let d = trim_chars(&chars_of(description.as_str()));
    let mut joined: Vec<char> = Vec::new();
    append_copies(&mut joined, t.as_slice());
    joined.push('\n');
    append_copies(&mut joined, d.as_slice());
    assert(joined@ =~= t@ + seq!['\n'] + d@);
    let text = string_from_chars(&joined);
    let normal = normalize_idea_text(text.as_str());
    compute_idea_hash(normal.as_str())
}

/// The number of bytes of a character in UTF-8.
pub open spec fn utf8_width(c: char) -> int {
    vstd::utf8::encode_scalar(c as u32).len() as int
}

/// The UTF-8 encoding of a concatenation is the concatenation of the encodings.
pub proof fn lemma_encode_concat(a: Seq<char>, b: Seq<char>)
    ensures
        vstd::utf8::encode_utf8(a + b) == vstd::utf8::encode_utf8(a) + vstd::utf8::encode_utf8(b),
    decreases a.len(),
{
    if a.len() == 0 {
        assert(a + b =~= b);
        assert(vstd::utf8::encode_utf8(a) =~= Seq::<u8>::empty());
        assert(vstd::utf8::encode_utf8(a) + vstd::utf8::encode_utf8(b) =~= vstd::utf8::encode_utf8(b));
    } else {
        assert((a + b).drop_first() =~= a.drop_first() + b);
        assert((a + b)[0] == a[0]);
        lemma_encode_concat(a.drop_first(), b);
        assert(vstd::utf8::encode_utf8(a + b) =~= vstd::utf8::encode_scalar(a[0] as u32) + (
        vstd::utf8::encode_utf8(a.drop_first()) + vstd::utf8::encode_utf8(b)));
    }
}

/// The UTF-8 width of a character (`char::len_utf8`).
pub fn char_width(c: char) -> (w: usize)
    ensures
        w == utf8_width(c),
        1 <= w <= 4,
{
    let u = c as u32;
    proof {
        vstd::utf8::char_is_scalar(c);
    }
    if u <= 0x7F {
        1
    } else if u <= 0x7FF {
        2
    } else if u <= 0xFFFF {
        3
    } else {
        4
    }
}

/// `p` is the prefix of `s` whose UTF-8 encoding is `n` bytes long.
pub open spec fn byte_cut(s: Seq<char>, n: int, p: Seq<char>) -> bool {
    exists|k: int| 0 <= k <= s.len() && p == s.take(k) && #[trigger] vstd::utf8::encode_utf8(s.take(k)).len() == n
}

/// `n` falls on a character boundary of the UTF-8 encoding of `s`.
pub open spec fn is_char_cut(s: Seq<char>, n: int) -> bool {
    exists|k: int| 0 <= k <= s.len() && #[trigger] vstd::utf8::encode_utf8(s.take(k)).len() == n
}

/// The characters of `s` whose UTF-8 encoding fills exactly its first `n`
/// bytes (`&s[..n]`), when `n` falls on a character boundary.
pub open spec fn byte_prefix_of(s: Seq<char>, n: int) -> Seq<char> {
    s.take(choose|k: int| 0 <= k <= s.len() && #[trigger] vstd::utf8::encode_utf8(s.take(k)).len() == n)
}

/// A prefix that fills exactly `n` bytes is `byte_prefix_of(s, n)`: prefixes
/// grow strictly, so only one has that length.
pub proof fn lemma_byte_cut_unique(s: Seq<char>, n: int, p: Seq<char>)
    requires
        byte_cut(s, n, p),
    ensures
        p == byte_prefix_of(s, n),
{
    let k = choose|k: int| 0 <= k <= s.len() && p == s.take(k) && #[trigger] vstd::utf8::encode_utf8(s.take(k)).len() == n;
    let m = choose|m: int| 0 <= m <= s.len() && #[trigger] vstd::utf8::encode_utf8(s.take(m)).len() == n;
    if k < m {
        lemma_prefix_grows_strictly(s, k, m);
    }
    if m < k {
        lemma_prefix_grows_strictly(s, m, k);
    }
}

/// The characters of `s` whose UTF-8 encoding fills exactly its first `n`
/// bytes, if `n` falls on a character boundary.
pub fn byte_prefix(s: &Vec<char>, n: usize) -> (r: Option<Vec<char>>)
    ensures
        match r {
            Some(p) => byte_cut(s@, n as int, p@) && p@ == byte_prefix_of(s@, n as int),
            None => !is_char_cut(s@, n as int),
        },
{
    let mut p: Vec<char> = Vec::new();
    let mut bytes: usize = 0;
    let mut i: usize = 0;
    while i < s.len() && bytes < n
        invariant
            i <= s@.len(),
            p@ == s@.take(i as int),
            bytes == vstd::utf8::encode_utf8(s@.take(i as int)).len(),
            bytes <= n,
            forall|k: int| 0 <= k < i ==> vstd::utf8::encode_utf8(#[trigger] s@.take(k)).len() < n,
        decreases s@.len() - i,
    {
        let w = char_width(s[i]);
        proof {
            assert(s@.take(i + 1) =~= s@.take(i as int) + seq![s@[i as int]]);
            lemma_encode_concat(s@.take(i as int), seq![s@[i as int]]);
            lemma_encode_single(s@[i as int]);
        }
        if w > n - bytes {
            proof {
                assert forall|k: int| 0 <= k <= s@.len() implies #[trigger] vstd::utf8::encode_utf8(s@.take(k)).len() != n by {
                    if k > i {
                        lemma_prefix_grows(s@, i as int + 1, k);
                    }
                }
            }
            return None;
        }
        p.push(s[i]);
        bytes = bytes + w;
        i = i + 1;
    }
    if bytes == n {
        proof {
            assert(byte_cut(s@, n as int, p@));
            lemma_byte_cut_unique(s@, n as int, p@);
        }
        return Some(p);
    }
    proof {
        assert(i == s@.len());
        assert(s@.take(i as int) =~= s@);
        assert forall|k: int| 0 <= k <= s@.len() implies #[trigger] vstd::utf8::encode_utf8(s@.take(k)).len() != n by {
            if k == s@.len() {
                assert(s@.take(k) =~= s@.take(i as int));
            }
        }
    }
    None
}

proof fn lemma_prefix_grows_strictly(s: Seq<char>, a: int, b: int)
    requires
        0 <= a < b <= s.len(),
    ensures
        vstd::utf8::encode_utf8(s.take(a)).len() < vstd::utf8::encode_utf8(s.take(b)).len(),
    decreases b - a,
{
    lemma_prefix_grows(s, a, b - 1);
    assert(s.take(b) =~= s.take(b - 1) + seq![s[b - 1]]);
    lemma_encode_concat(s.take(b - 1), seq![s[b - 1]]);
    lemma_encode_single(s[b - 1]);
}

proof fn lemma_encode_single(c: char)
    ensures
        vstd::utf8::encode_utf8(seq![c]) == vstd::utf8::encode_scalar(c as u32),
{
    assert(seq![c].drop_first() =~= Seq::<char>::empty());
    assert(vstd::utf8::encode_utf8(Seq::<char>::empty()) =~= Seq::<u8>::empty());
    assert(vstd::utf8::encode_utf8(seq![c]) =~= vstd::utf8::encode_scalar(c as u32) + Seq::<u8>::empty());
}

proof fn lemma_prefix_grows(s: Seq<char>, a: int, b: int)
    requires
        0 <= a <= b <= s.len(),
    ensures
        vstd::utf8::encode_utf8(s.take(a)).len() <= vstd::utf8::encode_utf8(s.take(b)).len(),
    decreases b - a,
{
    if a < b {
        lemma_prefix_grows(s, a, b - 1);
        assert(s.take(b) =~= s.take(b - 1) + seq![s[b - 1]]);
        lemma_encode_concat(s.take(b - 1), seq![s[b - 1]]);
    }
}

proof fn lemma_trim_start_shape(s: Seq<char>)
    ensures
        trim_start(s).len() == 0 || !is_white_space(trim_start(s)[0]),
        trim_start(s).len() <= s.len(),
        trim_start(s).len() > 0 ==> trim_start(s).last() == s.last(),
    decreases s.len(),
{
    if s.len() > 0 && is_white_space(s[0]) {
        lemma_trim_start_shape(s.drop_first());
    }
}

proof fn lemma_trim_end_shape(s: Seq<char>)
    ensures
        trim_end(s).len() == 0 || !is_white_space(trim_end(s).last()),
        trim_end(s).len() > 0 ==> trim_end(s)[0] == s[0],
    decreases s.len(),
{
    if s.len() > 0 && is_white_space(s.last()) {
        lemma_trim_end_shape(s.drop_last());
    }
}

proof fn lemma_trim_shape(s: Seq<char>)
    ensures
        trim(s).len() == 0 || (!is_white_space(trim(s)[0]) && !is_white_space(trim(s).last())),
{
    lemma_trim_start_shape(s);
    lemma_trim_end_shape(trim_start(s));
}

proof fn lemma_trim_fixed(y: Seq<char>)
    requires
        y.len() == 0 || (!is_white_space(y[0]) && !is_white_space(y.last())),
    ensures
        trim(y) == y,
{
}

proof fn lemma_crlf_ends(s: Seq<char>)
    ensures
        crlf_to_lf(s).len() == 0 <==> s.len() == 0,
        s.len() > 0 && s[0] != '\r' ==> crlf_to_lf(s)[0] == s[0],
        s.len() > 0 && s.last() != '\n' ==> crlf_to_lf(s).last() == s.last(),
    decreases s.len(),
{
    if s.len() >= 2 && s[0] == '\r' && s[1] == '\n' {
        lemma_crlf_ends(s.skip(2));
        if s.len() > 2 {
            assert(s.skip(2).last() == s.last());
        }
    } else if s.len() > 0 {
        lemma_crlf_ends(s.skip(1));
        if s.len() > 1 {
            assert(s.skip(1).last() == s.last());
        }
    }
}

proof fn lemma_crlf_without_cr(s: Seq<char>)
    requires
        forall|i: int| 0 <= i < s.len() ==> s[i] != '\r',
    ensures
        crlf_to_lf(s) == s,
    decreases s.len(),
{
    if s.len() > 0 {
        lemma_crlf_without_cr(s.skip(1));
        assert(seq![s[0]] + s.skip(1) =~= s);
    }
}

/// No carriage return is left in normalized text.
pub proof fn normalized_text_has_no_cr(s: Seq<char>)
    ensures
        forall|i: int| 0 <= i < normalized_text(s).len() ==> normalized_text(s)[i] != '\r',
{
}

/// Normalized text has no leading or trailing white space.
pub proof fn normalized_text_is_trimmed(s: Seq<char>)
    ensures
        trim(normalized_text(s)) == normalized_text(s),
{
    let t = trim(s);
    lemma_trim_shape(s);
    lemma_crlf_ends(t);
    let c = crlf_to_lf(t);
    let n = normalized_text(s);
    if t.len() > 0 {
        assert(t[0] != '\r' && t.last() != '\n');
        assert(n[0] == c[0]);
        assert(n.last() == c.last());
    }
    lemma_trim_fixed(n);
}

/// Normalizing twice changes nothing.
pub proof fn normalization_is_idempotent(s: Seq<char>)
    ensures
        normalized_text(normalized_text(s)) == normalized_text(s),
{
    let n = normalized_text(s);
    normalized_text_is_trimmed(s);
    normalized_text_has_no_cr(s);
    lemma_crlf_without_cr(n);
    assert(cr_to_lf(n) =~= n);
}

/// Idea texts that normalize alike get the same hash: surrounding white
/// space and the kind of line ending do not change it.
pub proof fn same_normal_form_same_hash(t1: Seq<char>, d1: Seq<char>, t2: Seq<char>, d2: Seq<char>)
    requires
        normalized_text(idea_text(t1, d1)) == normalized_text(idea_text(t2, d2)),
    ensures
        sha256(vstd::utf8::encode_utf8(normalized_text(idea_text(t1, d1)))) == sha256(
            vstd::utf8::encode_utf8(normalized_text(idea_text(t2, d2))),
        ),
{
}

} // verus!
