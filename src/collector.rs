//! Normalization of indexer operations into activity events, and the merge of the
//! activity collected from several chains.

use vstd::prelude::*;
use crate::activity::{ActivityKind, OwnerActivityEvent};

verus! {

/// The content of one operation as the indexer reports it. Owners and identifiers are in
/// their canonical text form.
#[derive(Debug)]
pub enum OperationContent {
    /// A transfer signed by `owner`.
    Transfer { owner: String, amount: u128, recipient: String },
    /// The creation of an application from a module.
    CreateApplication { module_id: String },
    /// A call of a user application.
    User { application_id: String, bytes: Vec<u8> },
    /// Any other system operation.
    OtherSystem,
}

/// One operation of a chain, with its position.
#[derive(Debug)]
pub struct OperationEntry {
    pub chain_id: String,
    pub height: u64,
    pub index: u32,
    pub content: OperationContent,
}

/// The event that an operation stands for, attributed to `owner`; `None` for operations of
/// other shapes and for transfers signed by someone else. Application calls and creations
/// have no signer in the indexer's report and are always attributed to `owner`.
pub open spec fn event_of(e: OperationEntry, owner: String) -> Option<OwnerActivityEvent> {
    match e.content {
        OperationContent::Transfer { owner: signer, amount, recipient } => if signer@ == owner@ {
            Some(
                OwnerActivityEvent {
                    owner,
                    chain_id: e.chain_id,
                    height: e.height,
                    operation_index: e.index as u64,
                    timestamp: None,
                    kind: ActivityKind::SystemTransfer { amount, recipient },
                },
            )
        } else {
            None
        },
        OperationContent::CreateApplication { module_id } => Some(
            OwnerActivityEvent {
                owner,
                chain_id: e.chain_id,
                height: e.height,
                operation_index: e.index as u64,
                timestamp: None,
                kind: ActivityKind::CreateApplication { module_id },
            },
        ),
        OperationContent::User { application_id, bytes } => Some(
            OwnerActivityEvent {
                owner,
                chain_id: e.chain_id,
                height: e.height,
                operation_index: e.index as u64,
                timestamp: None,
                kind: ActivityKind::UserOperation { application_id, payload: bytes },
            },
        ),
        OperationContent::OtherSystem => None,
    }
}

/// The events of a list of operations, in order, with owner-equal clones of `owner`.
pub open spec fn normalized(entries: Seq<OperationEntry>, owner: String) -> Seq<OwnerActivityEvent>
    decreases entries.len(),
{
    if entries.len() == 0 {
        Seq::empty()
    } else {
        let rest = normalized(entries.drop_first(), owner);
        match event_of(entries[0], owner) {
            Some(ev) => seq![ev] + rest,
            None => rest,
        }
    }
}

/// The events of an owner in a list of operations of the owner's chains, in the order of the
/// operations. Transfers carry their signer and are kept only when `owner` signed them;
/// application calls and application creations carry no signer, so every one of them on
/// the queried chains is attributed to `owner`.
pub fn normalize_operations(entries: Vec<OperationEntry>, owner: &String) -> (r: Vec<
    OwnerActivityEvent,
>)
    ensures
        r@ == normalized(entries@, *owner),
{
    let ghost all = entries@;
    let mut entries = entries;
    let mut events: Vec<OwnerActivityEvent> = Vec::new();
    while entries.len() > 0
        invariant
            events@ + normalized(entries@, *owner) == normalized(all, *owner),
        decreases entries.len(),
    {
        let ghost remaining = entries@;
        let entry = entries.remove(0);
        proof {
            assert(entries@ =~= remaining.drop_first());
        }
        let ghost before = events@;
        let OperationEntry { chain_id, height, index, content } = entry;
        match content {
            OperationContent::Transfer { owner: signer, amount, recipient } => {
                if signer == *owner {
                    events.push(
                        OwnerActivityEvent {
                            owner: owner.clone(),
                            chain_id,
                            height,
                            operation_index: index as u64,
                            timestamp: None,
                            kind: ActivityKind::SystemTransfer { amount, recipient },
                        },
                    );
                }
            },
            OperationContent::CreateApplication { module_id } => {
                events.push(
                    OwnerActivityEvent {
                        owner: owner.clone(),
                        chain_id,
                        height,
                        operation_index: index as u64,
                        timestamp: None,
                        kind: ActivityKind::CreateApplication { module_id },
                    },
                );
            },
            OperationContent::User { application_id, bytes } => {
                events.push(
                    OwnerActivityEvent {
                        owner: owner.clone(),
                        chain_id,
                        height,
                        operation_index: index as u64,
                        timestamp: None,
                        kind: ActivityKind::UserOperation { application_id, payload: bytes },
                    },
                );
            },
            OperationContent::OtherSystem => {},
        }
        proof {
            match event_of(remaining[0], *owner) {
                Some(ev) => {
                    assert(events@ =~= before.push(ev));
                    assert(before.push(ev) + normalized(entries@, *owner) =~= before + (seq![ev]
                        + normalized(entries@, *owner)));
                },
                None => {
                    assert(events@ == before);
                },
            }
        }
    }
    proof {
        assert(events@ + Seq::empty() =~= events@);
    }
    events
}

/// The events that a chain's outcome contributes: all of them, or none when its query failed.
pub open spec fn contribution<E>(outcome: Result<Vec<OwnerActivityEvent>, E>) -> Seq<OwnerActivityEvent> {
    match outcome {
        Ok(events) => events@,
        Err(_) => Seq::empty(),
    }
}

/// The events of all chains, chain after chain.
pub open spec fn gathered<E>(outcomes: Seq<Result<Vec<OwnerActivityEvent>, E>>) -> Seq<OwnerActivityEvent>
    decreases outcomes.len(),
{
    if outcomes.len() == 0 {
        Seq::empty()
    } else {
        contribution(outcomes[0]) + gathered(outcomes.drop_first())
    }
}

/// Concatenates the activity of every chain whose query succeeded; a failed chain adds
/// nothing and does not stop the others.
pub fn gather_chain_activity<E>(outcomes: Vec<Result<Vec<OwnerActivityEvent>, E>>) -> (r: Vec<
    OwnerActivityEvent,
>)
    ensures
        r@ == gathered(outcomes@),
{
    let ghost all = outcomes@;
    let mut outcomes = outcomes;
    let mut events: Vec<OwnerActivityEvent> = Vec::new();
    while outcomes.len() > 0
        invariant
            events@ + gathered(outcomes@) == gathered(all),
        decreases outcomes.len(),
    {
        let ghost remaining = outcomes@;
        let outcome = outcomes.remove(0);
        proof {
            assert(outcomes@ =~= remaining.drop_first());
        }
        let ghost before = events@;
        match outcome {
            Ok(chain_events) => {
                let mut chain_events = chain_events;
                events.append(&mut chain_events);
            },
            Err(_) => {},
        }
        proof {
            assert(events@ =~= before + contribution(remaining[0]));
            assert(before + contribution(remaining[0]) + gathered(outcomes@) =~= before + (
            contribution(remaining[0]) + gathered(outcomes@)));
        }
    }
    proof {
        assert(events@ + Seq::empty() =~= events@);
    }
    events
}

/// A chain whose query failed contributes nothing: the gathered activity is that of the
/// other chains, in their order.
pub proof fn lemma_failed_chain_contributes_nothing<E>(
    outcomes: Seq<Result<Vec<OwnerActivityEvent>, E>>,
    i: int,
)
    requires
        0 <= i < outcomes.len(),
        outcomes[i] is Err,
    ensures
        gathered(outcomes) == gathered(outcomes.remove(i)),
    decreases i,
{
    if i == 0 {
        assert(outcomes.remove(0) =~= outcomes.drop_first());
        assert(contribution(outcomes[0]) =~= Seq::<OwnerActivityEvent>::empty());
        assert(gathered(outcomes) =~= gathered(outcomes.drop_first()));
    } else {
        lemma_failed_chain_contributes_nothing(outcomes.drop_first(), i - 1);
        let removed = outcomes.remove(i);
        assert(removed.drop_first() =~= outcomes.drop_first().remove(i - 1));
        assert(removed[0] == outcomes[0]);
    }
}

} // verus!
