//! The delivery lifecycle of outgoing connector updates: each is claimed once, and finished once,
//! so an update is never sent twice.
use vstd::prelude::*;
use crate::domain::{
    text_view, ConnectorOutboxItemId, ExternalLinkId, SchemaMetadata, WorkItemId,
};
use super::error::EventStoreError;

verus! {

/// Where an outgoing update is in its delivery.
#[derive(Clone, Copy, Debug, PartialEq, Eq, Structural)]
pub enum ConnectorOutboxState {
    Pending,
    Delivering,
    Delivered,
    DeliveryUncertain,
}

/// The name under which the store indexes a delivery state.
pub open spec fn state_name(state: ConnectorOutboxState) -> Seq<char> {
    match state {
        ConnectorOutboxState::Pending => "pending"@,
        ConnectorOutboxState::Delivering => "delivering"@,
        ConnectorOutboxState::Delivered => "delivered"@,
        ConnectorOutboxState::DeliveryUncertain => "delivery_uncertain"@,
    }
}

/// The name under which the store indexes a delivery state.
pub fn state_key(state: ConnectorOutboxState) -> (r: &'static str)
    ensures
        r@ == state_name(state),
{
    match state {
        ConnectorOutboxState::Pending => "pending",
        ConnectorOutboxState::Delivering => "delivering",
        ConnectorOutboxState::Delivered => "delivered",
        ConnectorOutboxState::DeliveryUncertain => "delivery_uncertain",
    }
}

/// A work item field that is shared with an external resource and reconciled with it.
#[derive(Clone, Copy, Debug, PartialEq, Eq, Structural)]
pub enum ConnectorSharedField {
    Title,
    Description,
    WorkflowState,
}

/// The name under which the store indexes a shared field.
pub open spec fn field_name(field: ConnectorSharedField) -> Seq<char> {
    match field {
        ConnectorSharedField::Title => "title"@,
        ConnectorSharedField::Description => "description"@,
        ConnectorSharedField::WorkflowState => "workflow_state"@,
    }
}

/// The name under which the store indexes a shared field.
pub fn field_key(field: ConnectorSharedField) -> (r: &'static str)
    ensures
        r@ == field_name(field),
{
    match field {
        ConnectorSharedField::Title => "title",
        ConnectorSharedField::Description => "description",
        ConnectorSharedField::WorkflowState => "workflow_state",
    }
}

/// What an outgoing update does at the external service.
#[derive(Debug, PartialEq, Eq)]
pub enum ConnectorOutboxOperation {
    Comment { body: String },
}

/// The content of an operation.
pub enum ConnectorOutboxOperationView {
    Comment { body: Seq<char> },
}

impl View for ConnectorOutboxOperation {
    type V = ConnectorOutboxOperationView;

    open spec fn view(&self) -> ConnectorOutboxOperationView {
        match self {
            ConnectorOutboxOperation::Comment { body } => ConnectorOutboxOperationView::Comment { body: body@ },
        }
    }
}

impl ConnectorOutboxOperation {
    /// Whether both operations are alike.
    pub fn same_as(&self, other: &Self) -> (r: bool)
        ensures
            r == (self@ == other@),
    {
        match (self, other) {
            (ConnectorOutboxOperation::Comment { body: a }, ConnectorOutboxOperation::Comment { body: b }) => *a == *b,
        }
    }
}

impl Clone for ConnectorOutboxOperation {
    fn clone(&self) -> (r: Self)
        ensures
            r@ == self@,
    {
        match self {
            ConnectorOutboxOperation::Comment { body } => ConnectorOutboxOperation::Comment { body: body.clone() },
        }
    }
}

/// An outgoing update for an external resource linked to a work item.
#[derive(Debug, PartialEq, Eq)]
pub struct ConnectorOutboxItem {
    pub schema: SchemaMetadata,
    pub id: ConnectorOutboxItemId,
    pub work_item_id: WorkItemId,
    pub connector_id: String,
    pub external_link_id: ExternalLinkId,
    pub idempotency_key: String,
    pub operation: ConnectorOutboxOperation,
    pub state: ConnectorOutboxState,
    pub created_at: String,
    pub delivered_at: Option<String>,
}

/// The content of an outgoing update.
pub struct ConnectorOutboxItemView {
    pub schema: SchemaMetadata,
    pub id: Seq<char>,
    pub work_item_id: Seq<char>,
    pub connector_id: Seq<char>,
    pub external_link_id: Seq<char>,
    pub idempotency_key: Seq<char>,
    pub operation: ConnectorOutboxOperationView,
    pub state: ConnectorOutboxState,
    pub created_at: Seq<char>,
    pub delivered_at: Option<Seq<char>>,
}

impl View for ConnectorOutboxItem {
    type V = ConnectorOutboxItemView;

    open spec fn view(&self) -> ConnectorOutboxItemView {
        ConnectorOutboxItemView {
            schema: self.schema,
            id: self.id@,
            work_item_id: self.work_item_id@,
            connector_id: self.connector_id@,
            external_link_id: self.external_link_id@,
            idempotency_key: self.idempotency_key@,
            operation: self.operation@,
            state: self.state,
            created_at: self.created_at@,
            delivered_at: text_view(self.delivered_at),
        }
    }
}

impl Clone for ConnectorOutboxItem {
    fn clone(&self) -> (r: Self)
        ensures
            r@ == self@,
    {
        ConnectorOutboxItem {
            schema: self.schema,
            id: self.id.clone(),
            work_item_id: self.work_item_id.clone(),
            connector_id: self.connector_id.clone(),
            external_link_id: self.external_link_id.clone(),
            idempotency_key: self.idempotency_key.clone(),
            operation: self.operation.clone(),
            state: self.state,
            created_at: self.created_at.clone(),
            delivered_at: match &self.delivered_at {
                Some(t) => Some(t.clone()),
                None => None,
            },
        }
    }
}

/// A repeated update under a recorded identifier must be the same request: the same work item,
/// connector, link, key and operation; the recorded item is returned.
pub fn same_or_outbox_item_conflict(recorded: ConnectorOutboxItem, requested: ConnectorOutboxItem) -> (r: Result<ConnectorOutboxItem, EventStoreError>)
    ensures
        ({
            let same = recorded@.work_item_id == requested@.work_item_id && recorded@.connector_id
                == requested@.connector_id && recorded@.external_link_id
                == requested@.external_link_id && recorded@.idempotency_key
                == requested@.idempotency_key && recorded@.operation == requested@.operation;
            if same {
                r matches Ok(item) && item@ == recorded@
            } else {
                r matches Err(EventStoreError::ConnectorOutboxItemConflict { item_id }) && item_id@
                    == requested.id@
            }
        }),
{
    if recorded.work_item_id.same_as(&requested.work_item_id) && recorded.connector_id
        == requested.connector_id && recorded.external_link_id.same_as(&requested.external_link_id)
        && recorded.idempotency_key == requested.idempotency_key && recorded.operation.same_as(
        &requested.operation,
    ) {
        Ok(recorded)
    } else {
        Err(EventStoreError::ConnectorOutboxItemConflict { item_id: requested.id })
    }
}

/// A repeated idempotency key must carry the same operation for the same work item and link; the
/// recorded item is returned.
pub fn same_or_outbox_idempotency_conflict(recorded: ConnectorOutboxItem, requested: ConnectorOutboxItem) -> (r: Result<ConnectorOutboxItem, EventStoreError>)
    ensures
        ({
            let same = recorded@.operation == requested@.operation && recorded@.work_item_id
                == requested@.work_item_id && recorded@.external_link_id
                == requested@.external_link_id;
            if same {
                r matches Ok(item) && item@ == recorded@
            } else {
                r matches Err(EventStoreError::ConnectorOutboxIdempotencyConflict {
                    connector_id,
                    idempotency_key,
                }) && connector_id@ == requested.connector_id@ && idempotency_key@
                    == requested.idempotency_key@
            }
        }),
{
    if recorded.operation.same_as(&requested.operation) && recorded.work_item_id.same_as(
        &requested.work_item_id,
    ) && recorded.external_link_id.same_as(&requested.external_link_id) {
        Ok(recorded)
    } else {
        Err(EventStoreError::ConnectorOutboxIdempotencyConflict {
            connector_id: requested.connector_id,
            idempotency_key: requested.idempotency_key,
        })
    }
}

/// The item with a new delivery state and delivery time; everything else unchanged.
pub open spec fn with_delivery(item: ConnectorOutboxItemView, state: ConnectorOutboxState, delivered_at: Option<Seq<char>>) -> ConnectorOutboxItemView {
    ConnectorOutboxItemView { state, delivered_at, ..item }
}

/// The update after a claim, when it can be claimed: only a pending update can.
pub open spec fn claimed(item: ConnectorOutboxItemView) -> Option<ConnectorOutboxItemView> {
    if item.state == ConnectorOutboxState::Pending {
        Some(with_delivery(item, ConnectorOutboxState::Delivering, item.delivered_at))
    } else {
        None
    }
}

/// The update after finishing its delivery, when it can finish: only an update being delivered can.
pub open spec fn finished(
    item: ConnectorOutboxItemView,
    state: ConnectorOutboxState,
    delivered_at: Option<Seq<char>>,
) -> Option<ConnectorOutboxItemView> {
    if item.state == ConnectorOutboxState::Delivering {
        Some(with_delivery(item, state, delivered_at))
    } else {
        None
    }
}

/// Claims a pending update for delivery. `stored` is the item stored under `item_id`.
pub fn claim_connector_outbox_item(stored: Option<ConnectorOutboxItem>, item_id: &ConnectorOutboxItemId) -> (r: Result<ConnectorOutboxItem, EventStoreError>)
    ensures
        stored is None ==> (r matches Err(EventStoreError::ConnectorOutboxItemConflict { item_id: id })
            && id@ == item_id@),
        stored matches Some(item) ==> if claimed(item@) is Some {
            r matches Ok(c) && claimed(item@) == Some(c@)
        } else {
            r matches Err(EventStoreError::ConnectorOutboxCannotTransition { item_id: id }) && id@
                == item.id@
        },
{
    let mut item = match stored {
        Some(item) => item,
        None => return Err(EventStoreError::ConnectorOutboxItemConflict { item_id: item_id.clone() }),
    };
    if item.state != ConnectorOutboxState::Pending {
        return Err(EventStoreError::ConnectorOutboxCannotTransition { item_id: item.id });
    }
    item.state = ConnectorOutboxState::Delivering;
    Ok(item)
}

/// Finishes a claimed delivery with its outcome: `Delivered` with the delivery time, or
/// `DeliveryUncertain` without one. Only an update being delivered can finish.
pub fn finish_connector_outbox_item(
    stored: Option<ConnectorOutboxItem>,
    item_id: &ConnectorOutboxItemId,
    state: ConnectorOutboxState,
    delivered_at: Option<String>,
) -> (r: Result<ConnectorOutboxItem, EventStoreError>)
    ensures
        stored is None ==> (r matches Err(EventStoreError::ConnectorOutboxItemConflict { item_id: id })
            && id@ == item_id@),
        stored matches Some(item) ==> if finished(item@, state, text_view(delivered_at)) is Some {
            r matches Ok(f) && finished(item@, state, text_view(delivered_at)) == Some(f@)
        } else {
            r matches Err(EventStoreError::ConnectorOutboxCannotTransition { item_id: id }) && id@
                == item.id@
        },
{
    let mut item = match stored {
        Some(item) => item,
        None => return Err(EventStoreError::ConnectorOutboxItemConflict { item_id: item_id.clone() }),
    };
    if item.state != ConnectorOutboxState::Delivering {
        return Err(EventStoreError::ConnectorOutboxCannotTransition { item_id: item.id });
    }
    item.state = state;
    item.delivered_at = delivered_at;
    Ok(item)
}

/// After a restart, an update that was being delivered has an unknown outcome: it becomes
/// `DeliveryUncertain` and is never retried. Other updates are left alone.
pub fn recover_interrupted_delivery(item: ConnectorOutboxItem) -> (r: ConnectorOutboxItem)
    ensures
        item.state == ConnectorOutboxState::Delivering ==> r@ == with_delivery(
            item@,
            ConnectorOutboxState::DeliveryUncertain,
            None,
        ),
        item.state != ConnectorOutboxState::Delivering ==> r@ == item@,
{
    let mut item = item;
    if item.state == ConnectorOutboxState::Delivering {
        item.state = ConnectorOutboxState::DeliveryUncertain;
        item.delivered_at = None;
    }
    item
}

/// Whether a state is one in which no further delivery step is possible.
pub open spec fn is_settled(state: ConnectorOutboxState) -> bool {
    state == ConnectorOutboxState::Delivered || state == ConnectorOutboxState::DeliveryUncertain
}

/// Delivery moves forward only: a claimed update cannot be claimed again, and once its delivery
/// finished as delivered or uncertain, neither a claim nor a second finish applies to it, so an
/// update is sent at most once.
pub proof fn law_each_update_is_delivered_at_most_once(
    item: ConnectorOutboxItemView,
    outcome: ConnectorOutboxState,
    delivered_at: Option<Seq<char>>,
    later_outcome: ConnectorOutboxState,
    later_delivered_at: Option<Seq<char>>,
)
    requires
        is_settled(outcome),
    ensures
        claimed(item) matches Some(c) ==> claimed(c) is None,
        claimed(item) matches Some(c) ==> (finished(c, outcome, delivered_at) matches Some(f) && claimed(f) is None
            && finished(f, later_outcome, later_delivered_at) is None),
        is_settled(item.state) ==> claimed(item) is None && finished(item, later_outcome, later_delivered_at) is None,
{
}


/// A connector record must name a link that exists and belongs to its work item and connector.
/// `link` is the work item and connector of the stored link, when there is one.
pub fn require_connector_link(
    link: Option<(WorkItemId, String)>,
    external_link_id: &ExternalLinkId,
    work_item_id: &WorkItemId,
    connector_id: &str,
) -> (r: Result<(), EventStoreError>)
    ensures
        r is Ok <==> (link matches Some(l) && l.0@ == work_item_id@ && l.1@ == connector_id@),
        r is Err ==> (r matches Err(EventStoreError::ExternalLinkNotFound { link_id })
            && link_id@ == external_link_id@),
{
    match link {
        Some((linked_work_item, linked_connector)) => {
            let wanted = crate::text::owned(connector_id);
            if linked_work_item.same_as(work_item_id) && linked_connector == wanted {
                return Ok(());
            }
        },
        None => {},
    }
    Err(EventStoreError::ExternalLinkNotFound { link_id: external_link_id.clone() })
}

} // verus!
