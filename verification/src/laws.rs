//! The conversion policies, stated and proved once over the whole input
//! space. Each law is phrased over the same spec functions that the adapter's
//! contracts use.

use vstd::prelude::*;
use crate::codex::{ThreadItemView, TurnCompletedNotificationView, ItemCompletedNotificationView,
    ServerNotificationView};
use crate::model::UniversalEventDataView;
use crate::wire::{spec_notification_wf, spec_json_to_notification, lemma_wire_round_trip};
use crate::adapter::{spec_item_to_message, spec_notification_to_universal};

verus! {

/// The thread identifier a notification carries, if any: administrative
/// notifications carry none.
pub open spec fn spec_notification_session(n: ServerNotificationView) -> Option<Seq<char>> {
    match n {
        ServerNotificationView::ThreadStarted(p) => Some(p.thread.id),
        ServerNotificationView::TurnStarted(p) => Some(p.thread_id),
        ServerNotificationView::TurnCompleted(p) => Some(p.thread_id),
        ServerNotificationView::ItemStarted(p) => Some(p.thread_id),
        ServerNotificationView::ItemCompleted(p) => Some(p.thread_id),
        ServerNotificationView::ItemAgentMessageDelta(p) => Some(p.thread_id),
        ServerNotificationView::ItemReasoningTextDelta(p) => Some(p.thread_id),
        ServerNotificationView::ItemReasoningSummaryTextDelta(p) => Some(p.thread_id),
        ServerNotificationView::ItemCommandExecutionOutputDelta(p) => Some(p.thread_id),
        ServerNotificationView::ItemFileChangeOutputDelta(p) => Some(p.thread_id),
        ServerNotificationView::Error(p) => Some(p.thread_id),
        ServerNotificationView::ThreadTokenUsageUpdated(p) => Some(p.thread_id),
        ServerNotificationView::TurnDiffUpdated(p) => Some(p.thread_id),
        ServerNotificationView::TurnPlanUpdated(p) => Some(p.thread_id),
        ServerNotificationView::ItemCommandExecutionTerminalInteraction(p) => Some(p.thread_id),
        ServerNotificationView::ItemMcpToolCallProgress(p) => Some(p.thread_id),
        ServerNotificationView::ItemReasoningSummaryPartAdded(p) => Some(p.thread_id),
        ServerNotificationView::ThreadCompacted(p) => Some(p.thread_id),
        _ => None,
    }
}

/// Session propagation: a notification that carries a thread identifier
/// converts to an envelope whose session is exactly that identifier, and a
/// notification that carries none converts to an envelope with no session.
pub proof fn lemma_session_propagation(n: ServerNotificationView)
    ensures
        spec_notification_to_universal(n).session_id == spec_notification_session(n),
{
}

/// Tool-call shape: an MCP tool-call item always converts to a parsed message
/// of exactly two parts, a `ToolCall` followed by a `ToolResult`, whether the
/// call succeeded or failed.
pub proof fn lemma_tool_call_shape(it: ThreadItemView)
    requires
        it is McpToolCall,
    ensures
        spec_item_to_message(it) is Parsed,
        spec_item_to_message(it)->Parsed_0.parts.len() == 2,
        spec_item_to_message(it)->Parsed_0.parts[0] is ToolCall,
        spec_item_to_message(it)->Parsed_0.parts[1] is ToolResult,
{
}

/// Turn reduction: a completed turn with items converts exactly as an
/// item-completed notification carrying its last item would, whatever turn
/// identifier that notification names; a completed turn with no items
/// degrades to `Unknown`.
pub proof fn lemma_turn_reduction(p: TurnCompletedNotificationView, turn_id: Seq<char>)
    ensures
        p.turn.items.len() > 0 ==> spec_notification_to_universal(
            ServerNotificationView::TurnCompleted(p),
        ) == spec_notification_to_universal(
            ServerNotificationView::ItemCompleted(
                ItemCompletedNotificationView {
                    item: p.turn.items.last(),
                    thread_id: p.thread_id,
                    turn_id,
                },
            ),
        ),
        p.turn.items.len() == 0 ==> spec_notification_to_universal(
            ServerNotificationView::TurnCompleted(p),
        ).data is Unknown,
{
}

/// Unknown losslessness: whenever the forward direction degrades a
/// well-formed notification to `Unknown`, the raw payload deserializes back
/// into a value equal to the original typed notification.
pub proof fn lemma_unknown_lossless(n: ServerNotificationView)
    requires
        spec_notification_wf(n),
    ensures
        spec_notification_to_universal(n).data matches UniversalEventDataView::Unknown { raw }
            ==> spec_json_to_notification(raw) == Some(n),
{
    lemma_wire_round_trip(n);
}

} // verus!
