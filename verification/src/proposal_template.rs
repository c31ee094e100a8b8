use crate::access::{outcome, DaoConfig, MemberRole};
use crate::role_permissions::{CAN_PROPOSE};
use crate::error::IndrasError;
use crate::keys::{key_eq, Key};
use crate::proposal::{drafted, proposal_text_error, role_may_propose, Proposal, ProposalStatus, DEFAULT_VOTING_DURATION};
use crate::render::append_str;
use crate::text::{byte_len, is_empty_text, string_from_chars, utf8_len};
use vstd::prelude::*;

verus! {

/// The kind of value a template field takes.
#[derive(Clone, Copy, Debug, PartialEq, Eq, Structural)]
pub enum TemplateFieldType {
    Text,
    Number,
    Boolean,
    Date,
    Address,
}

/// One field of a proposal template.
#[derive(Debug)]
pub struct TemplateField {
    pub name: String,
    pub description: String,
    pub field_type: TemplateFieldType,
    pub required: bool,
}

/// A template proposals can be made from.
#[derive(Debug)]
pub struct ProposalTemplate {
    pub template_id: u64,
    pub name: String,
    pub description: String,
    pub proposal_type: String,
    pub fields: Vec<TemplateField>,
    pub created_by: Key,
    pub created_at: i64,
    pub updated_at: Option<i64>,
    pub is_active: bool,
    pub bump: u8,
}

/// Most fields a template holds.
pub const MAX_TEMPLATE_FIELDS: usize = 20;

/// The checks on a template's texts: a name of 1 to 100 bytes, a
/// description of at most 500, a type of 1 to 50.
pub open spec fn template_text_error(name: Seq<char>, description: Seq<char>, proposal_type: Seq<char>) -> Option<
    IndrasError,
> {
    if name.len() == 0 || utf8_len(name) > 100 || utf8_len(description) > 500 || proposal_type.len() == 0
        || utf8_len(proposal_type) > 50 {
        Some(IndrasError::InvalidInput)
    } else {
        None
    }
}

impl ProposalTemplate {
    /// An active template with no fields, refusing invalid texts.
    pub fn new_with_time(
        template_id: u64,
        name: String,
        description: String,
        proposal_type: String,
        created_by: Key,
        bump: u8,
        now: i64,
    ) -> (r: Result<ProposalTemplate, IndrasError>)
        ensures
            r is Err <==> template_text_error(name@, description@, proposal_type@) is Some,
            r is Err ==> r == Err::<ProposalTemplate, IndrasError>(IndrasError::InvalidInput),
            r matches Ok(t) ==> t.fields@.len() == 0 && t == (ProposalTemplate {
                template_id: template_id,
                name: name,
                description: description,
                proposal_type: proposal_type,
                fields: t.fields,
                created_by: created_by,
                created_at: now,
                updated_at: None,
                is_active: true,
                bump: bump,
            }),
    {
        if is_empty_text(&name) || byte_len(&name) > 100 || byte_len(&description) > 500 || is_empty_text(
            &proposal_type,
        ) || byte_len(&proposal_type) > 50 {
            return Err(IndrasError::InvalidInput);
        }
        Ok(
            ProposalTemplate {
                template_id: template_id,
                name: name,
                description: description,
                proposal_type: proposal_type,
                fields: Vec::new(),
                created_by: created_by,
                created_at: now,
                updated_at: None,
                is_active: true,
                bump: bump,
            },
        )
    }

    /// Renames and redescribes the template (each where given, and valid).
    pub fn update(&mut self, name: Option<String>, description: Option<String>, now: i64) -> (r: Result<(), IndrasError>)
        ensures
            r == outcome(
                if (name is Some && (name->0@.len() == 0 || utf8_len(name->0@) > 100)) || (description is Some
                    && utf8_len(description->0@) > 500) {
                    Some(IndrasError::InvalidInput)
                } else {
                    None
                },
            ),
            r is Err ==> *final(self) == *old(self),
            r is Ok ==> *final(self) == (ProposalTemplate {
                name: match name {
                    Some(n) => n,
                    None => old(self).name,
                },
                description: match description {
                    Some(d) => d,
                    None => old(self).description,
                },
                updated_at: Some(now),
                ..*old(self)
            }),
    {
        if let Some(n) = &name {
            if is_empty_text(n) || byte_len(n) > 100 {
                return Err(IndrasError::InvalidInput);
            }
        }
        if let Some(d) = &description {
            if byte_len(d) > 500 {
                return Err(IndrasError::InvalidInput);
            }
        }
        if let Some(n) = name {
            self.name = n;
        }
        if let Some(d) = description {
            self.description = d;
        }
        self.updated_at = Some(now);
        Ok(())
    }

    /// Turns an active template off.
    pub fn deactivate(&mut self, now: i64) -> (r: Result<(), IndrasError>)
        ensures
            r == outcome(if !old(self).is_active { Some(IndrasError::InvalidState) } else { None }),
            r is Err ==> *final(self) == *old(self),
            r is Ok ==> *final(self) == (ProposalTemplate { is_active: false, updated_at: Some(now), ..*old(self) }),
    {
        if !self.is_active {
            return Err(IndrasError::InvalidState);
        }
        self.is_active = false;
        self.updated_at = Some(now);
        Ok(())
    }

    /// Turns an inactive template on.
    pub fn activate(&mut self, now: i64) -> (r: Result<(), IndrasError>)
        ensures
            r == outcome(if old(self).is_active { Some(IndrasError::InvalidState) } else { None }),
            r is Err ==> *final(self) == *old(self),
            r is Ok ==> *final(self) == (ProposalTemplate { is_active: true, updated_at: Some(now), ..*old(self) }),
    {
        if self.is_active {
            return Err(IndrasError::InvalidState);
        }
        self.is_active = true;
        self.updated_at = Some(now);
        Ok(())
    }
}

/// Creates a template, with no fields yet.
pub fn create_proposal_template_handler(
    creator: &Key,
    now: i64,
    bump: u8,
    template_id: u64,
    name: String,
    description: String,
    proposal_type: String,
) -> (r: Result<ProposalTemplate, IndrasError>)
    ensures
        r is Err <==> template_text_error(name@, description@, proposal_type@) is Some,
        r is Err ==> r == Err::<ProposalTemplate, IndrasError>(IndrasError::InvalidInput),
        r matches Ok(t) ==> t.fields@.len() == 0 && t == (ProposalTemplate {
            template_id: template_id,
            name: name,
            description: description,
            proposal_type: proposal_type,
            fields: t.fields,
            created_by: *creator,
            created_at: now,
            updated_at: None,
            is_active: true,
            bump: bump,
        }),
{
    ProposalTemplate::new_with_time(template_id, name, description, proposal_type, *creator, bump, now)
}

/// The caller manages the template: its creator or the DAO authority.
pub open spec fn manages(t: ProposalTemplate, caller: Key, authority: Key) -> bool {
    caller == t.created_by || caller == authority
}

/// The first failing check of `add_template_field_handler`.
pub open spec fn add_field_error(
    t: ProposalTemplate,
    caller: Key,
    authority: Key,
    field_name: Seq<char>,
    field_description: Seq<char>,
) -> Option<IndrasError> {
    if !manages(t, caller, authority) {
        Some(IndrasError::Unauthorized)
    } else if t.fields@.len() >= MAX_TEMPLATE_FIELDS || field_name.len() == 0 || utf8_len(field_name) > 50
        || utf8_len(field_description) > 200 {
        Some(IndrasError::InvalidInput)
    } else {
        None
    }
}

/// Adds a field to a template (at most 20).
pub fn add_template_field_handler(
    template: &mut ProposalTemplate,
    manager: &Key,
    dao_config: &DaoConfig,
    now: i64,
    field_name: String,
    field_description: String,
    field_type: TemplateFieldType,
    required: bool,
) -> (r: Result<(), IndrasError>)
    ensures
        r == outcome(add_field_error(*old(template), *manager, dao_config.authority, field_name@, field_description@)),
        r is Err ==> *final(template) == *old(template),
        r is Ok ==> final(template).fields@ == old(template).fields@.push(
            TemplateField { name: field_name, description: field_description, field_type: field_type, required: required },
        ) && *final(template) == (ProposalTemplate {
            fields: final(template).fields,
            updated_at: Some(now),
            ..*old(template)
        }),
{
    if !key_eq(manager, &template.created_by) && !key_eq(manager, &dao_config.authority) {
        return Err(IndrasError::Unauthorized);
    }
    if template.fields.len() >= MAX_TEMPLATE_FIELDS || is_empty_text(&field_name) || byte_len(&field_name) > 50
        || byte_len(&field_description) > 200 {
        return Err(IndrasError::InvalidInput);
    }
    template.fields.push(
        TemplateField { name: field_name, description: field_description, field_type: field_type, required: required },
    );
    template.updated_at = Some(now);
    Ok(())
}

/// Renames and redescribes a template; an empty name or description leaves
/// that text as it is.
pub fn update_proposal_template_handler(
    template: &mut ProposalTemplate,
    updater: &Key,
    dao_config: &DaoConfig,
    now: i64,
    name: String,
    description: String,
) -> (r: Result<(), IndrasError>)
    ensures
        r == outcome(
            if !manages(*old(template), *updater, dao_config.authority) {
                Some(IndrasError::Unauthorized)
            } else if utf8_len(name@) > 100 || utf8_len(description@) > 500 {
                Some(IndrasError::InvalidInput)
            } else {
                None
            },
        ),
        r is Err ==> *final(template) == *old(template),
        r is Ok ==> *final(template) == (ProposalTemplate {
            name: if name@.len() == 0 { old(template).name } else { name },
            description: if description@.len() == 0 { old(template).description } else { description },
            updated_at: Some(now),
            ..*old(template)
        }),
{
    if !key_eq(updater, &template.created_by) && !key_eq(updater, &dao_config.authority) {
        return Err(IndrasError::Unauthorized);
    }
    let name_opt = if is_empty_text(&name) {
        None
    } else {
        Some(name)
    };
    let desc_opt = if is_empty_text(&description) {
        None
    } else {
        Some(description)
    };
    template.update(name_opt, desc_opt, now)
}

/// Turns a template off (its creator or the DAO authority).
pub fn deactivate_proposal_template_handler(
    template: &mut ProposalTemplate,
    manager: &Key,
    dao_config: &DaoConfig,
    now: i64,
) -> (r: Result<(), IndrasError>)
    ensures
        r == outcome(
            if !manages(*old(template), *manager, dao_config.authority) {
                Some(IndrasError::Unauthorized)
            } else if !old(template).is_active {
                Some(IndrasError::InvalidState)
            } else {
                None
            },
        ),
        r is Err ==> *final(template) == *old(template),
        r is Ok ==> *final(template) == (ProposalTemplate { is_active: false, updated_at: Some(now), ..*old(template) }),
{
    if !key_eq(manager, &template.created_by) && !key_eq(manager, &dao_config.authority) {
        return Err(IndrasError::Unauthorized);
    }
    template.deactivate(now)
}

/// Turns a template on (its creator or the DAO authority).
pub fn activate_proposal_template_handler(
    template: &mut ProposalTemplate,
    manager: &Key,
    dao_config: &DaoConfig,
    now: i64,
) -> (r: Result<(), IndrasError>)
    ensures
        r == outcome(
            if !manages(*old(template), *manager, dao_config.authority) {
                Some(IndrasError::Unauthorized)
            } else if old(template).is_active {
                Some(IndrasError::InvalidState)
            } else {
                None
            },
        ),
        r is Err ==> *final(template) == *old(template),
        r is Ok ==> *final(template) == (ProposalTemplate { is_active: true, updated_at: Some(now), ..*old(template) }),
{
    if !key_eq(manager, &template.created_by) && !key_eq(manager, &dao_config.authority) {
        return Err(IndrasError::Unauthorized);
    }
    template.activate(now)
}

/// The lines `name: value` of the first `n` fields, each ending in a line feed.
pub open spec fn field_lines(fields: Seq<TemplateField>, values: Seq<String>, n: int) -> Seq<char>
    decreases n,
{
    if n <= 0 {
        Seq::empty()
    } else {
        field_lines(fields, values, n - 1) + fields[n - 1].name@ + ": "@ + values[n - 1]@ + "\n"@
    }
}

/// The title of a proposal made from a template: the template's name, a
/// colon and the first value (nothing when there is none).
pub open spec fn template_title(t: ProposalTemplate, values: Seq<String>) -> Seq<char> {
    t.name@ + ": "@ + if values.len() > 0 { values[0]@ } else { Seq::empty() }
}

/// The description of a proposal made from a template: the template's
/// description, a heading, and one line per field.
pub open spec fn template_description(t: ProposalTemplate, values: Seq<String>) -> Seq<char> {
    t.description@ + "\n\nTemplate Fields:\n"@ + field_lines(t.fields@, values, t.fields@.len() as int)
}

/// The first failing check of `create_proposal_from_template_handler`.
pub open spec fn from_template_error(
    t: ProposalTemplate,
    role: Option<MemberRole>,
    template_id: u64,
    values: Seq<String>,
) -> Option<IndrasError> {
    if t.template_id != template_id {
        Some(IndrasError::InvalidInput)
    } else if !t.is_active {
        Some(IndrasError::InvalidState)
    } else if values.len() != t.fields@.len() {
        Some(IndrasError::InvalidInput)
    } else if !role_may_propose(role) {
        Some(IndrasError::Unauthorized)
    } else {
        proposal_text_error(template_title(t, values), template_description(t, values), t.proposal_type@)
    }
}

/// Makes a Draft proposal from an active template, one value per field.
pub fn create_proposal_from_template_handler(
    template: &ProposalTemplate,
    author: &Key,
    author_role: &Option<MemberRole>,
    now: i64,
    bump: u8,
    proposal_id: u64,
    template_id: u64,
    values: Vec<String>,
    voting_duration: Option<i64>,
) -> (r: Result<Proposal, IndrasError>)
    ensures
        r is Err <==> from_template_error(*template, *author_role, template_id, values@) is Some,
        r matches Err(e) ==> Some(e) == from_template_error(*template, *author_role, template_id, values@),
        r matches Ok(p) ==> p.title@ == template_title(*template, values@) && p.description@ == template_description(
            *template,
            values@,
        ) && p.proposal_type == template.proposal_type && drafted(
            p,
            proposal_id,
            p.title,
            p.description,
            *author,
            now,
            voting_duration,
            None,
            bump,
        ),
{
    if template.template_id != template_id {
        return Err(IndrasError::InvalidInput);
    }
    if !template.is_active {
        return Err(IndrasError::InvalidState);
    }
    if values.len() != template.fields.len() {
        return Err(IndrasError::InvalidInput);
    }
    if let Some(role) = author_role {
        if !role.has_permission(CAN_PROPOSE) {
            return Err(IndrasError::Unauthorized);
        }
    }
    let mut t: Vec<char> = Vec::new();
    append_str(&mut t, template.name.as_str());
    append_str(&mut t, ": ");
    if values.len() > 0 {
        append_str(&mut t, values[0].as_str());
    }
    proof {
        if values@.len() == 0 {
            assert(t@ =~= template_title(*template, values@));
        }
    }
    let title = string_from_chars(&t);
    let mut d: Vec<char> = Vec::new();
    append_str(&mut d, template.description.as_str());
    append_str(&mut d, "\n\nTemplate Fields:\n");
    let ghost head = d@;
    let mut i: usize = 0;
    while i < template.fields.len()
        invariant
            i <= template.fields@.len(),
            values@.len() == template.fields@.len(),
            d@ == head + field_lines(template.fields@, values@, i as int),
        decreases template.fields@.len() - i,
    {
        append_str(&mut d, template.fields[i].name.as_str());
        append_str(&mut d, ": ");
        append_str(&mut d, values[i].as_str());
        append_str(&mut d, "\n");
        i = i + 1;
    }
    let description = string_from_chars(&d);
    let proposal_type = template.proposal_type.clone();
    if is_empty_text(&title) || byte_len(&title) > 200 || is_empty_text(&description) || byte_len(&description)
        > 2000 || is_empty_text(&proposal_type) || byte_len(&proposal_type) > 50 {
        return Err(IndrasError::InvalidInput);
    }
    let duration = match voting_duration {
        Some(v) => v,
        None => DEFAULT_VOTING_DURATION,
    };
    Ok(
        Proposal {
            id: proposal_id,
            title: title,
            description: description,
            proposal_type: proposal_type,
            author: *author,
            created_at: now,
            updated_at: None,
            submitted_at: None,
            cancelled_at: None,
            executed_at: None,
            archived_at: None,
            voting_duration: duration,
            status: ProposalStatus::Draft,
            bump: bump,
            yes_votes: 0,
            no_votes: 0,
            total_votes: 0,
            last_tallied_at: None,
            cancellation_reason: None,
            execution_data: None,
            expires_at: None,
            idea_id: None,
            treasury_operation: None,
        },
    )
}

} // verus!
