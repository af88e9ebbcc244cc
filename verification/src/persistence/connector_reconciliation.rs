//! Remote comparisons of shared fields: each remote revision of a field of a linked resource is
//! recorded once, and a record never changes.
use vstd::prelude::*;
use crate::domain::{ConnectorReconciliationItemId, ExternalLinkId, SchemaMetadata, WorkItemId};
use super::connector_outbox::{field_key, field_name, ConnectorSharedField};
use super::error::EventStoreError;

verus! {

/// Where a remote comparison is in its resolution.
#[derive(Clone, Copy, Debug, PartialEq, Eq, Structural)]
pub enum ConnectorReconciliationState {
    /// The local and the remote value differ and wait for a decision.
    NeedsResolution,
}

/// A comparison of a shared field with its value in the linked external resource, at one remote
/// revision.
#[derive(Clone, Debug, PartialEq, Eq)]
pub struct ConnectorReconciliationItem {
    pub schema: SchemaMetadata,
    pub id: ConnectorReconciliationItemId,
    pub work_item_id: WorkItemId,
    pub connector_id: String,
    pub external_link_id: ExternalLinkId,
    pub field: ConnectorSharedField,
    pub local_value: String,
    pub remote_value: String,
    pub remote_revision: String,
    pub state: ConnectorReconciliationState,
    pub observed_at: String,
}

/// The content of a remote comparison.
pub struct ConnectorReconciliationItemView {
    pub schema: SchemaMetadata,
    pub id: Seq<char>,
    pub work_item_id: Seq<char>,
    pub connector_id: Seq<char>,
    pub external_link_id: Seq<char>,
    pub field: ConnectorSharedField,
    pub local_value: Seq<char>,
    pub remote_value: Seq<char>,
    pub remote_revision: Seq<char>,
    pub state: ConnectorReconciliationState,
    pub observed_at: Seq<char>,
}

impl View for ConnectorReconciliationItem {
    type V = ConnectorReconciliationItemView;

    open spec fn view(&self) -> ConnectorReconciliationItemView {
        ConnectorReconciliationItemView {
            schema: self.schema,
            id: self.id@,
            work_item_id: self.work_item_id@,
            connector_id: self.connector_id@,
            external_link_id: self.external_link_id@,
            field: self.field,
            local_value: self.local_value@,
            remote_value: self.remote_value@,
            remote_revision: self.remote_revision@,
            state: self.state,
            observed_at: self.observed_at@,
        }
    }
}

/// Whether two comparisons are the same record.
fn same_reconciliation(a: &ConnectorReconciliationItem, b: &ConnectorReconciliationItem) -> (r: bool)
    ensures
        r == (a@ == b@),
{
    a.schema == b.schema && a.id.0 == b.id.0 && a.work_item_id.same_as(&b.work_item_id)
        && a.connector_id == b.connector_id && a.external_link_id.0 == b.external_link_id.0
        && a.field == b.field && a.local_value == b.local_value && a.remote_value == b.remote_value
        && a.remote_revision == b.remote_revision && a.state == b.state && a.observed_at
        == b.observed_at
}

/// A repeated comparison under a recorded identifier must be the recorded one, field for field;
/// the recorded comparison is returned.
pub fn same_or_reconciliation_item_conflict(
    recorded: ConnectorReconciliationItem,
    requested: ConnectorReconciliationItem,
) -> (r: Result<ConnectorReconciliationItem, EventStoreError>)
    ensures
        recorded@ == requested@ ==> (r matches Ok(item) && item@ == recorded@),
        recorded@ != requested@ ==> (r matches Err(
            EventStoreError::ConnectorReconciliationItemConflict { item_id },
        ) && item_id@ == requested.id@),
{
    if same_reconciliation(&recorded, &requested) {
        Ok(recorded)
    } else {
        Err(EventStoreError::ConnectorReconciliationItemConflict { item_id: requested.id })
    }
}

/// A comparison of a field of a link at a remote revision that was already recorded must be the
/// recorded one, field for field; the recorded comparison is returned. A different one is
/// refused, naming the link, the field and the revision.
pub fn same_or_reconciliation_revision_conflict(
    recorded: ConnectorReconciliationItem,
    requested: ConnectorReconciliationItem,
) -> (r: Result<ConnectorReconciliationItem, EventStoreError>)
    ensures
        recorded@ == requested@ ==> (r matches Ok(item) && item@ == recorded@),
        recorded@ != requested@ ==> (r matches Err(
            EventStoreError::ConnectorReconciliationRevisionConflict {
                external_link_id,
                field,
                remote_revision,
            },
        ) && external_link_id@ == requested.external_link_id@ && field@ == field_name(
            requested.field,
        ) && remote_revision@ == requested.remote_revision@),
{
    if same_reconciliation(&recorded, &requested) {
        Ok(recorded)
    } else {
        let field = crate::text::owned(field_key(requested.field));
        Err(
            EventStoreError::ConnectorReconciliationRevisionConflict {
                external_link_id: requested.external_link_id,
                field,
                remote_revision: requested.remote_revision,
            },
        )
    }
}

} // verus!
