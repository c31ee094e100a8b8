use crate::access::{outcome, DaoConfig};
use crate::error::IndrasError;
use crate::grant::{Grant, GrantStatus};
use crate::idea::{AnchorRecord, Idea, IdeaStatus};
use crate::keys::{key_eq, Key};
use crate::mesh_group::{contains_id, DevelopmentStage, GroupStatus, MeshGroup};
use crate::text::{byte_len, is_empty_text, utf8_len};
use vstd::prelude::*;

verus! {

/// Which company an enterprise is.
#[derive(Clone, Copy, Debug, PartialEq, Eq, Structural)]
pub enum EnterpriseType {
    IndrasNetOU,
    OtherFirm,
}

/// The commercial life-cycle of an enterprise.
#[derive(Clone, Copy, Debug, PartialEq, Eq, Structural)]
pub enum EnterpriseStatus {
    Forming,
    SeekingInvestment,
    Funded,
    InProduction,
    Active,
    Launched,
    Suspended,
    Dissolved,
}

/// How far an enterprise's product has come.
#[derive(Clone, Copy, Debug, PartialEq, Eq, Structural)]
pub enum ProductionStatus {
    NotStarted,
    InDevelopment,
    Manufacturing,
    InProduction,
    Launched,
    Discontinued,
}

/// A commercial enterprise that takes ideas to production.
#[derive(Debug)]
pub struct CommercialEnterprise {
    pub id: u64,
    pub name: String,
    pub description: String,
    pub enterprise_pubkey: Key,
    pub enterprise_type: EnterpriseType,
    pub status: EnterpriseStatus,
    pub ideas: Vec<u64>,
    pub investors: Vec<Key>,
    pub total_investment: u64,
    pub production_status: ProductionStatus,
    pub created_at: i64,
    pub commercialization_started_at: Option<i64>,
    pub production_started_at: Option<i64>,
    pub bump: u8,
}

/// The checks on an enterprise's texts: a name of 1 to 100 bytes and a
/// description of at most 500.
pub open spec fn enterprise_text_error(name: Seq<char>, description: Seq<char>) -> Option<IndrasError> {
    if name.len() == 0 {
        Some(IndrasError::InvalidInput)
    } else if utf8_len(name) > 100 || utf8_len(description) > 500 {
        Some(IndrasError::StringTooLong)
    } else {
        None
    }
}

/// Creates a Forming enterprise with no ideas, investors or investment.
pub fn create_commercial_enterprise_handler(
    now: i64,
    bump: u8,
    enterprise_id: u64,
    name: String,
    description: String,
    enterprise_pubkey: Key,
    enterprise_type: EnterpriseType,
) -> (r: Result<CommercialEnterprise, IndrasError>)
    ensures
        r is Err <==> enterprise_text_error(name@, description@) is Some,
        r matches Err(e) ==> Some(e) == enterprise_text_error(name@, description@),
        r matches Ok(c) ==> c.ideas@.len() == 0 && c.investors@.len() == 0 && c == (CommercialEnterprise {
            id: enterprise_id,
            name: name,
            description: description,
            enterprise_pubkey: enterprise_pubkey,
            enterprise_type: enterprise_type,
            status: EnterpriseStatus::Forming,
            ideas: c.ideas,
            investors: c.investors,
            total_investment: 0,
            production_status: ProductionStatus::NotStarted,
            created_at: now,
            commercialization_started_at: None,
            production_started_at: None,
            bump: bump,
        }),
{
    if is_empty_text(&name) {
        return Err(IndrasError::InvalidInput);
    }
    if byte_len(&name) > 100 || byte_len(&description) > 500 {
        return Err(IndrasError::StringTooLong);
    }
    Ok(
        CommercialEnterprise {
            id: enterprise_id,
            name: name,
            description: description,
            enterprise_pubkey: enterprise_pubkey,
            enterprise_type: enterprise_type,
            status: EnterpriseStatus::Forming,
            ideas: Vec::new(),
            investors: Vec::new(),
            total_investment: 0,
            production_status: ProductionStatus::NotStarted,
            created_at: now,
            commercialization_started_at: None,
            production_started_at: None,
            bump: bump,
        },
    )
}

impl CommercialEnterprise {
    /// Takes on an idea it does not hold yet.
    pub fn add_idea(&mut self, idea_id: u64) -> (r: Result<(), IndrasError>)
        ensures
            r == outcome(if old(self).ideas@.contains(idea_id) { Some(IndrasError::InvalidInput) } else { None }),
            r is Err ==> *final(self) == *old(self),
            r is Ok ==> final(self).ideas@ == old(self).ideas@.push(idea_id) && *final(self) == (CommercialEnterprise {
                ideas: final(self).ideas,
                ..*old(self)
            }),
    {
        if contains_id(&self.ideas, idea_id) {
            return Err(IndrasError::InvalidInput);
        }
        self.ideas.push(idea_id);
        Ok(())
    }

    /// Lists an investor (once).
    pub fn add_investor(&mut self, investor: Key)
        ensures
            final(self).investors@ == (if old(self).investors@.contains(investor) {
                old(self).investors@
            } else {
                old(self).investors@.push(investor)
            }),
            *final(self) == (CommercialEnterprise { investors: final(self).investors, ..*old(self) }),
    {
        let mut i: usize = 0;
        while i < self.investors.len()
            invariant
                i <= self.investors@.len(),
                forall|j: int| 0 <= j < i ==> self.investors@[j] != investor,
            decreases self.investors@.len() - i,
        {
            if key_eq(&self.investors[i], &investor) {
                assert(self.investors@[i as int] == investor);
                return;
            }
            i = i + 1;
        }
        self.investors.push(investor);
    }

    /// Adds to the total investment (saturating at `u64::MAX`).
    pub fn update_investment(&mut self, amount: u64)
        ensures
            *final(self) == (CommercialEnterprise {
                total_investment: if old(self).total_investment + amount > u64::MAX {
                    u64::MAX
                } else {
                    (old(self).total_investment + amount) as u64
                },
                ..*old(self)
            }),
    {
        self.total_investment = match self.total_investment.checked_add(amount) {
            Some(t) => t,
            None => u64::MAX,
        };
    }
}

/// Whether a grant gave the association the right to commercialize the idea.
pub open spec fn grant_gives_right(grant: Option<&Grant>, idea_id: u64) -> bool {
    match grant {
        Some(g) => g.idea_id == idea_id && (g.status == GrantStatus::Approved || g.status == GrantStatus::Active
            || g.status == GrantStatus::Completed) && g.commercialization_right_transferred,
        None => false,
    }
}

/// The first failing check of `transfer_idea_to_commercial_enterprise_handler`.
pub open spec fn transfer_error(
    idea: Idea,
    enterprise: CommercialEnterprise,
    authority: Key,
    mesh_group: Option<&MeshGroup>,
    anchor_record: AnchorRecord,
    grant: Option<&Grant>,
    transferrer: Key,
    idea_id: u64,
    enterprise_id: u64,
) -> Option<IndrasError> {
    if idea.id != idea_id || enterprise.id != enterprise_id {
        Some(IndrasError::InvalidInput)
    } else if idea.status != IdeaStatus::Executed && idea.status != IdeaStatus::Completed {
        Some(IndrasError::InvalidState)
    } else if mesh_group is Some && !mesh_group->0.ideas@.contains(idea_id) {
        Some(IndrasError::IdeaNotInMeshGroup)
    } else if mesh_group is Some && ((mesh_group->0.status != GroupStatus::Completed && mesh_group->0.status
        != GroupStatus::Disbanded) || mesh_group->0.current_stage != DevelopmentStage::Completed) {
        Some(IndrasError::InvalidState)
    } else if anchor_record.idea_id != idea.id {
        Some(IndrasError::InvalidInput)
    } else if anchor_record.anchorer != idea.author {
        Some(IndrasError::Unauthorized)
    } else if !grant_gives_right(grant, idea_id) && idea.rights_transferred_to_ev is None {
        Some(IndrasError::Unauthorized)
    } else if transferrer != authority {
        Some(IndrasError::Unauthorized)
    } else if enterprise.ideas@.contains(idea_id) {
        Some(IndrasError::InvalidInput)
    } else {
        None
    }
}

/// The DAO authority hands a finished idea to an enterprise. The idea must
/// be anchored by its author, its group (if given) finished, and the
/// association must hold the right to commercialize it (through a grant or
/// the author's voluntary transfer). The enterprise takes the idea (a
/// Forming enterprise starts seeking investment) and the idea enters
/// commercialization.
pub fn transfer_idea_to_commercial_enterprise_handler(
    idea: &mut Idea,
    enterprise: &mut CommercialEnterprise,
    dao_config: &DaoConfig,
    mesh_group: Option<&MeshGroup>,
    anchor_record: &AnchorRecord,
    grant: Option<&Grant>,
    transferrer: &Key,
    now: i64,
    idea_id: u64,
    enterprise_id: u64,
) -> (r: Result<(), IndrasError>)
    ensures
        r == outcome(
            transfer_error(
                *old(idea),
                *old(enterprise),
                dao_config.authority,
                mesh_group,
                *anchor_record,
                grant,
                *transferrer,
                idea_id,
                enterprise_id,
            ),
        ),
        r is Err ==> *final(idea) == *old(idea) && *final(enterprise) == *old(enterprise),
        r is Ok ==> {
            let forming = old(enterprise).status == EnterpriseStatus::Forming;
            &&& *final(idea) == (Idea { status: IdeaStatus::Commercialization, ..*old(idea) })
            &&& final(enterprise).ideas@ == old(enterprise).ideas@.push(idea_id)
            &&& *final(enterprise) == (CommercialEnterprise {
                ideas: final(enterprise).ideas,
                status: if forming { EnterpriseStatus::SeekingInvestment } else { old(enterprise).status },
                commercialization_started_at: if forming {
                    Some(now)
                } else {
                    old(enterprise).commercialization_started_at
                },
                ..*old(enterprise)
            })
        },
{
    if idea.id != idea_id || enterprise.id != enterprise_id {
        return Err(IndrasError::InvalidInput);
    }
    if idea.status != IdeaStatus::Executed && idea.status != IdeaStatus::Completed {
        return Err(IndrasError::InvalidState);
    }
    if let Some(g) = mesh_group {
        if !contains_id(&g.ideas, idea_id) {
            return Err(IndrasError::IdeaNotInMeshGroup);
        }
        if (g.status != GroupStatus::Completed && g.status != GroupStatus::Disbanded) || g.current_stage
            != DevelopmentStage::Completed {
            return Err(IndrasError::InvalidState);
        }
    }
    if anchor_record.idea_id != idea.id {
        return Err(IndrasError::InvalidInput);
    }
    if !key_eq(&anchor_record.anchorer, &idea.author) {
        return Err(IndrasError::Unauthorized);
    }
    let has_grant_right = match grant {
        Some(g) => g.idea_id == idea_id && (g.status == GrantStatus::Approved || g.status == GrantStatus::Active
            || g.status == GrantStatus::Completed) && g.commercialization_right_transferred,
        None => false,
    };
    if !has_grant_right && idea.rights_transferred_to_ev.is_none() {
        return Err(IndrasError::Unauthorized);
    }
    if !key_eq(transferrer, &dao_config.authority) {
        return Err(IndrasError::Unauthorized);
    }
    enterprise.add_idea(idea_id)?;
    if enterprise.status == EnterpriseStatus::Forming {
        enterprise.status = EnterpriseStatus::SeekingInvestment;
        enterprise.commercialization_started_at = Some(now);
    }
    idea.status = IdeaStatus::Commercialization;
    Ok(())
}

/// An enterprise seeking investment or active takes an investment of more
/// than zero from an investor; one seeking investment becomes Funded.
pub fn add_investor_handler(enterprise: &mut CommercialEnterprise, investor: Key, investment_amount: u64) -> (r:
    Result<(), IndrasError>)
    ensures
        r == outcome(
            if old(enterprise).status != EnterpriseStatus::SeekingInvestment && old(enterprise).status
                != EnterpriseStatus::Active {
                Some(IndrasError::InvalidState)
            } else if investment_amount == 0 {
                Some(IndrasError::InvalidInput)
            } else {
                None
            },
        ),
        r is Err ==> *final(enterprise) == *old(enterprise),
        r is Ok ==> {
            let total = if old(enterprise).total_investment + investment_amount > u64::MAX {
                u64::MAX
            } else {
                (old(enterprise).total_investment + investment_amount) as u64
            };
            &&& final(enterprise).investors@ == (if old(enterprise).investors@.contains(investor) {
                old(enterprise).investors@
            } else {
                old(enterprise).investors@.push(investor)
            })
            &&& *final(enterprise) == (CommercialEnterprise {
                investors: final(enterprise).investors,
                total_investment: total,
                status: if old(enterprise).status == EnterpriseStatus::SeekingInvestment {
                    EnterpriseStatus::Funded
                } else {
                    old(enterprise).status
                },
                ..*old(enterprise)
            })
        },
{
    if enterprise.status != EnterpriseStatus::SeekingInvestment && enterprise.status != EnterpriseStatus::Active {
        return Err(IndrasError::InvalidState);
    }
    if investment_amount == 0 {
        return Err(IndrasError::InvalidInput);
    }
    enterprise.add_investor(investor);
    enterprise.update_investment(investment_amount);
    if enterprise.status == EnterpriseStatus::SeekingInvestment && enterprise.total_investment > 0 {
        enterprise.status = EnterpriseStatus::Funded;
    }
    Ok(())
}

/// The enterprise status after a production update: a Funded enterprise
/// that starts manufacturing goes into production, a launched product
/// launches the enterprise.
pub open spec fn status_after_production(s: EnterpriseStatus, p: ProductionStatus) -> EnterpriseStatus {
    match p {
        ProductionStatus::Manufacturing => if s == EnterpriseStatus::Funded {
            EnterpriseStatus::InProduction
        } else {
            s
        },
        ProductionStatus::Launched => EnterpriseStatus::Launched,
        _ => s,
    }
}

/// Records the production status of a Funded, producing or Active enterprise.
pub fn update_production_status_handler(enterprise: &mut CommercialEnterprise, now: i64, new_status: ProductionStatus) -> (r:
    Result<(), IndrasError>)
    ensures
        r == outcome(
            if old(enterprise).status != EnterpriseStatus::Funded && old(enterprise).status
                != EnterpriseStatus::InProduction && old(enterprise).status != EnterpriseStatus::Active {
                Some(IndrasError::InvalidState)
            } else {
                None
            },
        ),
        r is Err ==> *final(enterprise) == *old(enterprise),
        r is Ok ==> *final(enterprise) == (CommercialEnterprise {
            production_status: new_status,
            status: status_after_production(old(enterprise).status, new_status),
            production_started_at: if new_status == ProductionStatus::Manufacturing && old(enterprise).status
                == EnterpriseStatus::Funded {
                Some(now)
            } else {
                old(enterprise).production_started_at
            },
            ..*old(enterprise)
        }),
{
    if enterprise.status != EnterpriseStatus::Funded && enterprise.status != EnterpriseStatus::InProduction
        && enterprise.status != EnterpriseStatus::Active {
        return Err(IndrasError::InvalidState);
    }
    enterprise.production_status = new_status;
    match new_status {
        ProductionStatus::Manufacturing => {
            if enterprise.status == EnterpriseStatus::Funded {
                enterprise.status = EnterpriseStatus::InProduction;
                enterprise.production_started_at = Some(now);
            }
        },
        ProductionStatus::Launched => {
            enterprise.status = EnterpriseStatus::Launched;
        },
        _ => {},
    }
    Ok(())
}

} // verus!
