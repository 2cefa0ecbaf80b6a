//! The Codex backend's notification and item unions.
//!
//! One strongly-typed, exhaustively tagged union per concept: a run loop
//! emits `ServerNotification` values, each turn carries `ThreadItem`s. Every
//! type has a ghost mirror (`...View`) over sequences and `JsonData`, reached
//! through `DeepView`, which the adapter contracts are stated over.

use vstd::prelude::*;
use crate::json::{JsonValue, JsonData};

verus! {

// ---------------------------------------------------------------------------
// status and tool enums

#[derive(Debug, Clone, Copy, PartialEq, Eq)]
pub enum CommandExecutionStatus {
    InProgress,
    Completed,
    Failed,
}

#[derive(Debug, Clone, Copy, PartialEq, Eq)]
pub enum PatchApplyStatus {
    InProgress,
    Completed,
    Failed,
}

#[derive(Debug, Clone, Copy, PartialEq, Eq)]
pub enum McpToolCallStatus {
    InProgress,
    Completed,
    Failed,
}

#[derive(Debug, Clone, Copy, PartialEq, Eq)]
pub enum CollabAgentToolCallStatus {
    InProgress,
    Completed,
    Failed,
}

#[derive(Debug, Clone, Copy, PartialEq, Eq)]
pub enum CollabAgentTool {
    SpawnAgent,
    SendMessage,
    Wait,
    CloseAgent,
}

impl DeepView for CommandExecutionStatus {
    type V = CommandExecutionStatus;

    open spec fn deep_view(&self) -> CommandExecutionStatus {
        *self
    }
}

impl DeepView for PatchApplyStatus {
    type V = PatchApplyStatus;

    open spec fn deep_view(&self) -> PatchApplyStatus {
        *self
    }
}

impl DeepView for McpToolCallStatus {
    type V = McpToolCallStatus;

    open spec fn deep_view(&self) -> McpToolCallStatus {
        *self
    }
}

impl DeepView for CollabAgentToolCallStatus {
    type V = CollabAgentToolCallStatus;

    open spec fn deep_view(&self) -> CollabAgentToolCallStatus {
        *self
    }
}

impl DeepView for CollabAgentTool {
    type V = CollabAgentTool;

    open spec fn deep_view(&self) -> CollabAgentTool {
        *self
    }
}

// ---------------------------------------------------------------------------
// items

/// One block of user-authored input inside a user message item.
#[derive(Debug, Clone, PartialEq, Eq)]
pub enum UserInput {
    Text { text: String, text_elements: Vec<String> },
    Image { image_url: String },
    LocalImage { path: String },
    Skill { name: String, path: String },
}

#[verifier::ext_equal]
pub enum UserInputView {
    Text { text: Seq<char>, text_elements: Seq<Seq<char>> },
    Image { image_url: Seq<char> },
    LocalImage { path: Seq<char> },
    Skill { name: Seq<char>, path: Seq<char> },
}

impl DeepView for UserInput {
    type V = UserInputView;

    open spec fn deep_view(&self) -> UserInputView {
        match *self {
            UserInput::Text { text, text_elements } => UserInputView::Text {
                text: text@,
                text_elements: text_elements.deep_view(),
            },
            UserInput::Image { image_url } => UserInputView::Image { image_url: image_url@ },
            UserInput::LocalImage { path } => UserInputView::LocalImage { path: path@ },
            UserInput::Skill { name, path } => UserInputView::Skill { name: name@, path: path@ },
        }
    }
}

/// One entry of a file-change item.
#[derive(Debug, Clone, PartialEq, Eq)]
pub struct FileUpdateChange {
    pub path: String,
    pub kind: String,
    pub diff: String,
}

#[verifier::ext_equal]
pub struct FileUpdateChangeView {
    pub path: Seq<char>,
    pub kind: Seq<char>,
    pub diff: Seq<char>,
}

impl DeepView for FileUpdateChange {
    type V = FileUpdateChangeView;

    open spec fn deep_view(&self) -> FileUpdateChangeView {
        FileUpdateChangeView { path: self.path@, kind: self.kind@, diff: self.diff@ }
    }
}

/// The error half of a finished MCP tool call.
#[derive(Debug, Clone, PartialEq, Eq)]
pub struct McpToolCallError {
    pub message: String,
}

#[verifier::ext_equal]
pub struct McpToolCallErrorView {
    pub message: Seq<char>,
}

impl DeepView for McpToolCallError {
    type V = McpToolCallErrorView;

    open spec fn deep_view(&self) -> McpToolCallErrorView {
        McpToolCallErrorView { message: self.message@ }
    }
}

/// One unit of content within a turn.
#[derive(Debug, Clone, PartialEq, Eq)]
pub enum ThreadItem {
    UserMessage {
        content: Vec<UserInput>,
        id: String,
    },
    AgentMessage {
        id: String,
        text: String,
    },
    Reasoning {
        content: Vec<String>,
        id: String,
        summary: Vec<String>,
    },
    CommandExecution {
        aggregated_output: Option<String>,
        command: String,
        command_actions: Vec<JsonValue>,
        cwd: String,
        duration_ms: Option<i64>,
        exit_code: Option<i32>,
        id: String,
        process_id: Option<i64>,
        status: CommandExecutionStatus,
    },
    FileChange {
        changes: Vec<FileUpdateChange>,
        id: String,
        status: PatchApplyStatus,
    },
    McpToolCall {
        arguments: JsonValue,
        duration_ms: Option<i64>,
        error: Option<McpToolCallError>,
        id: String,
        result: Option<JsonValue>,
        server: String,
        status: McpToolCallStatus,
        tool: String,
    },
    CollabAgentToolCall {
        agents_states: JsonValue,
        id: String,
        prompt: Option<String>,
        receiver_thread_ids: Vec<String>,
        sender_thread_id: String,
        status: CollabAgentToolCallStatus,
        tool: CollabAgentTool,
    },
    WebSearch {
        id: String,
        query: String,
    },
    ImageView {
        id: String,
        path: String,
    },
    EnteredReviewMode {
        id: String,
        review: String,
    },
    ExitedReviewMode {
        id: String,
        review: String,
    },
}

#[verifier::ext_equal]
pub enum ThreadItemView {
    UserMessage {
        content: Seq<UserInputView>,
        id: Seq<char>,
    },
    AgentMessage {
        id: Seq<char>,
        text: Seq<char>,
    },
    Reasoning {
        content: Seq<Seq<char>>,
        id: Seq<char>,
        summary: Seq<Seq<char>>,
    },
    CommandExecution {
        aggregated_output: Option<Seq<char>>,
        command: Seq<char>,
        command_actions: Seq<JsonData>,
        cwd: Seq<char>,
        duration_ms: Option<i64>,
        exit_code: Option<i32>,
        id: Seq<char>,
        process_id: Option<i64>,
        status: CommandExecutionStatus,
    },
    FileChange {
        changes: Seq<FileUpdateChangeView>,
        id: Seq<char>,
        status: PatchApplyStatus,
    },
    McpToolCall {
        arguments: JsonData,
        duration_ms: Option<i64>,
        error: Option<McpToolCallErrorView>,
        id: Seq<char>,
        result: Option<JsonData>,
        server: Seq<char>,
        status: McpToolCallStatus,
        tool: Seq<char>,
    },
    CollabAgentToolCall {
        agents_states: JsonData,
        id: Seq<char>,
        prompt: Option<Seq<char>>,
        receiver_thread_ids: Seq<Seq<char>>,
        sender_thread_id: Seq<char>,
        status: CollabAgentToolCallStatus,
        tool: CollabAgentTool,
    },
    WebSearch {
        id: Seq<char>,
        query: Seq<char>,
    },
    ImageView {
        id: Seq<char>,
        path: Seq<char>,
    },
    EnteredReviewMode {
        id: Seq<char>,
        review: Seq<char>,
    },
    ExitedReviewMode {
        id: Seq<char>,
        review: Seq<char>,
    },
}

impl DeepView for ThreadItem {
    type V = ThreadItemView;

    open spec fn deep_view(&self) -> ThreadItemView {
        match *self {
            ThreadItem::UserMessage { content, id } => ThreadItemView::UserMessage {
                content: content.deep_view(),
                id: id@,
            },
            ThreadItem::AgentMessage { id, text } => ThreadItemView::AgentMessage {
                id: id@,
                text: text@,
            },
            ThreadItem::Reasoning { content, id, summary } => ThreadItemView::Reasoning {
                content: content.deep_view(),
                id: id@,
                summary: summary.deep_view(),
            },
            ThreadItem::CommandExecution {
                aggregated_output,
                command,
                command_actions,
                cwd,
                duration_ms,
                exit_code,
                id,
                process_id,
                status,
            } => ThreadItemView::CommandExecution {
                aggregated_output: aggregated_output.deep_view(),
                command: command@,
                command_actions: command_actions.deep_view(),
                cwd: cwd@,
                duration_ms: duration_ms,
                exit_code: exit_code,
                id: id@,
                process_id: process_id,
                status: status,
            },
            ThreadItem::FileChange { changes, id, status } => ThreadItemView::FileChange {
                changes: changes.deep_view(),
                id: id@,
                status: status,
            },
            ThreadItem::McpToolCall {
                arguments,
                duration_ms,
                error,
                id,
                result,
                server,
                status,
                tool,
            } => ThreadItemView::McpToolCall {
                arguments: arguments.deep_view(),
                duration_ms: duration_ms,
                error: error.deep_view(),
                id: id@,
                result: result.deep_view(),
                server: server@,
                status: status,
                tool: tool@,
            },
            ThreadItem::CollabAgentToolCall {
                agents_states,
                id,
                prompt,
                receiver_thread_ids,
                sender_thread_id,
                status,
                tool,
            } => ThreadItemView::CollabAgentToolCall {
                agents_states: agents_states.deep_view(),
                id: id@,
                prompt: prompt.deep_view(),
                receiver_thread_ids: receiver_thread_ids.deep_view(),
                sender_thread_id: sender_thread_id@,
                status: status,
                tool: tool,
            },
            ThreadItem::WebSearch { id, query } => ThreadItemView::WebSearch {
                id: id@,
                query: query@,
            },
            ThreadItem::ImageView { id, path } => ThreadItemView::ImageView {
                id: id@,
                path: path@,
            },
            ThreadItem::EnteredReviewMode { id, review } => ThreadItemView::EnteredReviewMode {
                id: id@,
                review: review@,
            },
            ThreadItem::ExitedReviewMode { id, review } => ThreadItemView::ExitedReviewMode {
                id: id@,
                review: review@,
            },
        }
    }
}

// ---------------------------------------------------------------------------
// threads and turns

/// A conversation on the backend.
#[derive(Debug, Clone, PartialEq, Eq)]
pub struct Thread {
    pub id: String,
}

#[verifier::ext_equal]
pub struct ThreadView {
    pub id: Seq<char>,
}

impl DeepView for Thread {
    type V = ThreadView;

    open spec fn deep_view(&self) -> ThreadView {
        ThreadView { id: self.id@ }
    }
}

/// One execution round within a thread.
#[derive(Debug, Clone, PartialEq, Eq)]
pub struct Turn {
    pub id: String,
    pub items: Vec<ThreadItem>,
}

#[verifier::ext_equal]
pub struct TurnView {
    pub id: Seq<char>,
    pub items: Seq<ThreadItemView>,
}

impl DeepView for Turn {
    type V = TurnView;

    open spec fn deep_view(&self) -> TurnView {
        TurnView { id: self.id@, items: self.items.deep_view() }
    }
}

/// The error payload of an error notification.
#[derive(Debug, Clone, PartialEq, Eq)]
pub struct TurnError {
    pub message: String,
    pub additional_details: Option<String>,
    pub codex_error_info: Option<JsonValue>,
}

#[verifier::ext_equal]
pub struct TurnErrorView {
    pub message: Seq<char>,
    pub additional_details: Option<Seq<char>>,
    pub codex_error_info: Option<JsonData>,
}

impl DeepView for TurnError {
    type V = TurnErrorView;

    open spec fn deep_view(&self) -> TurnErrorView {
        TurnErrorView {
            message: self.message@,
            additional_details: self.additional_details.deep_view(),
            codex_error_info: self.codex_error_info.deep_view(),
        }
    }
}

// ---------------------------------------------------------------------------
// notification payloads

#[derive(Debug, Clone, PartialEq, Eq)]
pub struct ThreadStartedNotification {
    pub thread: Thread,
}

#[verifier::ext_equal]
pub struct ThreadStartedNotificationView {
    pub thread: ThreadView,
}

impl DeepView for ThreadStartedNotification {
    type V = ThreadStartedNotificationView;

    open spec fn deep_view(&self) -> ThreadStartedNotificationView {
        ThreadStartedNotificationView { thread: self.thread.deep_view() }
    }
}

#[derive(Debug, Clone, PartialEq, Eq)]
pub struct TurnStartedNotification {
    pub thread_id: String,
    pub turn: Turn,
}

#[verifier::ext_equal]
pub struct TurnStartedNotificationView {
    pub thread_id: Seq<char>,
    pub turn: TurnView,
}

impl DeepView for TurnStartedNotification {
    type V = TurnStartedNotificationView;

    open spec fn deep_view(&self) -> TurnStartedNotificationView {
        TurnStartedNotificationView {
            thread_id: self.thread_id@,
            turn: self.turn.deep_view(),
        }
    }
}

#[derive(Debug, Clone, PartialEq, Eq)]
pub struct TurnCompletedNotification {
    pub thread_id: String,
    pub turn: Turn,
}

#[verifier::ext_equal]
pub struct TurnCompletedNotificationView {
    pub thread_id: Seq<char>,
    pub turn: TurnView,
}

impl DeepView for TurnCompletedNotification {
    type V = TurnCompletedNotificationView;

    open spec fn deep_view(&self) -> TurnCompletedNotificationView {
        TurnCompletedNotificationView {
            thread_id: self.thread_id@,
            turn: self.turn.deep_view(),
        }
    }
}

#[derive(Debug, Clone, PartialEq, Eq)]
pub struct ItemStartedNotification {
    pub item: ThreadItem,
    pub thread_id: String,
    pub turn_id: String,
}

#[verifier::ext_equal]
pub struct ItemStartedNotificationView {
    pub item: ThreadItemView,
    pub thread_id: Seq<char>,
    pub turn_id: Seq<char>,
}

impl DeepView for ItemStartedNotification {
    type V = ItemStartedNotificationView;

    open spec fn deep_view(&self) -> ItemStartedNotificationView {
        ItemStartedNotificationView {
            item: self.item.deep_view(),
            thread_id: self.thread_id@,
            turn_id: self.turn_id@,
        }
    }
}

#[derive(Debug, Clone, PartialEq, Eq)]
pub struct ItemCompletedNotification {
    pub item: ThreadItem,
    pub thread_id: String,
    pub turn_id: String,
}

#[verifier::ext_equal]
pub struct ItemCompletedNotificationView {
    pub item: ThreadItemView,
    pub thread_id: Seq<char>,
    pub turn_id: Seq<char>,
}

impl DeepView for ItemCompletedNotification {
    type V = ItemCompletedNotificationView;

    open spec fn deep_view(&self) -> ItemCompletedNotificationView {
        ItemCompletedNotificationView {
            item: self.item.deep_view(),
            thread_id: self.thread_id@,
            turn_id: self.turn_id@,
        }
    }
}

/// An incremental fragment of a streaming item. All five delta notifications
/// share this shape.
#[derive(Debug, Clone, PartialEq, Eq)]
pub struct ItemDeltaNotification {
    pub delta: String,
    pub item_id: String,
    pub thread_id: String,
    pub turn_id: String,
}

#[verifier::ext_equal]
pub struct ItemDeltaNotificationView {
    pub delta: Seq<char>,
    pub item_id: Seq<char>,
    pub thread_id: Seq<char>,
    pub turn_id: Seq<char>,
}

impl DeepView for ItemDeltaNotification {
    type V = ItemDeltaNotificationView;

    open spec fn deep_view(&self) -> ItemDeltaNotificationView {
        ItemDeltaNotificationView {
            delta: self.delta@,
            item_id: self.item_id@,
            thread_id: self.thread_id@,
            turn_id: self.turn_id@,
        }
    }
}

#[derive(Debug, Clone, PartialEq, Eq)]
pub struct ErrorNotification {
    pub error: TurnError,
    pub thread_id: String,
    pub turn_id: String,
    pub will_retry: bool,
}

#[verifier::ext_equal]
pub struct ErrorNotificationView {
    pub error: TurnErrorView,
    pub thread_id: Seq<char>,
    pub turn_id: Seq<char>,
    pub will_retry: bool,
}

impl DeepView for ErrorNotification {
    type V = ErrorNotificationView;

    open spec fn deep_view(&self) -> ErrorNotificationView {
        ErrorNotificationView {
            error: self.error.deep_view(),
            thread_id: self.thread_id@,
            turn_id: self.turn_id@,
            will_retry: self.will_retry,
        }
    }
}

/// A notification that carries a thread id and an auxiliary payload the
/// adapter has no canonical representation for.
#[derive(Debug, Clone, PartialEq, Eq)]
pub struct ThreadAuxNotification {
    pub thread_id: String,
    pub payload: JsonValue,
}

#[verifier::ext_equal]
pub struct ThreadAuxNotificationView {
    pub thread_id: Seq<char>,
    pub payload: JsonData,
}

impl DeepView for ThreadAuxNotification {
    type V = ThreadAuxNotificationView;

    open spec fn deep_view(&self) -> ThreadAuxNotificationView {
        ThreadAuxNotificationView {
            thread_id: self.thread_id@,
            payload: self.payload.deep_view(),
        }
    }
}

// ---------------------------------------------------------------------------
// the notification union

/// One discrete event emitted by the backend's run loop.
#[derive(Debug, Clone, PartialEq, Eq)]
pub enum ServerNotification {
    ThreadStarted(ThreadStartedNotification),
    TurnStarted(TurnStartedNotification),
    TurnCompleted(TurnCompletedNotification),
    ItemStarted(ItemStartedNotification),
    ItemCompleted(ItemCompletedNotification),
    ItemAgentMessageDelta(ItemDeltaNotification),
    ItemReasoningTextDelta(ItemDeltaNotification),
    ItemReasoningSummaryTextDelta(ItemDeltaNotification),
    ItemCommandExecutionOutputDelta(ItemDeltaNotification),
    ItemFileChangeOutputDelta(ItemDeltaNotification),
    Error(ErrorNotification),
    ThreadTokenUsageUpdated(ThreadAuxNotification),
    TurnDiffUpdated(ThreadAuxNotification),
    TurnPlanUpdated(ThreadAuxNotification),
    ItemCommandExecutionTerminalInteraction(ThreadAuxNotification),
    ItemMcpToolCallProgress(ThreadAuxNotification),
    ItemReasoningSummaryPartAdded(ThreadAuxNotification),
    ThreadCompacted(ThreadAuxNotification),
    AccountUpdated(JsonValue),
    AccountRateLimitsUpdated(JsonValue),
    AccountLoginCompleted(JsonValue),
    McpServerOauthLoginCompleted(JsonValue),
    AuthStatusChange(JsonValue),
    LoginChatGptComplete(JsonValue),
    SessionConfigured(JsonValue),
    DeprecationNotice(JsonValue),
    ConfigWarning(JsonValue),
    WindowsWorldWritableWarning(JsonValue),
    RawResponseItemCompleted(JsonValue),
}

#[verifier::ext_equal]
pub enum ServerNotificationView {
    ThreadStarted(ThreadStartedNotificationView),
    TurnStarted(TurnStartedNotificationView),
    TurnCompleted(TurnCompletedNotificationView),
    ItemStarted(ItemStartedNotificationView),
    ItemCompleted(ItemCompletedNotificationView),
    ItemAgentMessageDelta(ItemDeltaNotificationView),
    ItemReasoningTextDelta(ItemDeltaNotificationView),
    ItemReasoningSummaryTextDelta(ItemDeltaNotificationView),
    ItemCommandExecutionOutputDelta(ItemDeltaNotificationView),
    ItemFileChangeOutputDelta(ItemDeltaNotificationView),
    Error(ErrorNotificationView),
    ThreadTokenUsageUpdated(ThreadAuxNotificationView),
    TurnDiffUpdated(ThreadAuxNotificationView),
    TurnPlanUpdated(ThreadAuxNotificationView),
    ItemCommandExecutionTerminalInteraction(ThreadAuxNotificationView),
    ItemMcpToolCallProgress(ThreadAuxNotificationView),
    ItemReasoningSummaryPartAdded(ThreadAuxNotificationView),
    ThreadCompacted(ThreadAuxNotificationView),
    AccountUpdated(JsonData),
    AccountRateLimitsUpdated(JsonData),
    AccountLoginCompleted(JsonData),
    McpServerOauthLoginCompleted(JsonData),
    AuthStatusChange(JsonData),
    LoginChatGptComplete(JsonData),
    SessionConfigured(JsonData),
    DeprecationNotice(JsonData),
    ConfigWarning(JsonData),
    WindowsWorldWritableWarning(JsonData),
    RawResponseItemCompleted(JsonData),
}

impl DeepView for ServerNotification {
    type V = ServerNotificationView;

    open spec fn deep_view(&self) -> ServerNotificationView {
        match *self {
            ServerNotification::ThreadStarted(p) => ServerNotificationView::ThreadStarted(
                p.deep_view(),
            ),
            ServerNotification::TurnStarted(p) => ServerNotificationView::TurnStarted(
                p.deep_view(),
            ),
            ServerNotification::TurnCompleted(p) => ServerNotificationView::TurnCompleted(
                p.deep_view(),
            ),
            ServerNotification::ItemStarted(p) => ServerNotificationView::ItemStarted(
                p.deep_view(),
            ),
            ServerNotification::ItemCompleted(p) => ServerNotificationView::ItemCompleted(
                p.deep_view(),
            ),
            ServerNotification::ItemAgentMessageDelta(p)
                => ServerNotificationView::ItemAgentMessageDelta(p.deep_view()),
            ServerNotification::ItemReasoningTextDelta(p)
                => ServerNotificationView::ItemReasoningTextDelta(p.deep_view()),
            ServerNotification::ItemReasoningSummaryTextDelta(p)
                => ServerNotificationView::ItemReasoningSummaryTextDelta(p.deep_view()),
            ServerNotification::ItemCommandExecutionOutputDelta(p)
                => ServerNotificationView::ItemCommandExecutionOutputDelta(p.deep_view()),
            ServerNotification::ItemFileChangeOutputDelta(p)
                => ServerNotificationView::ItemFileChangeOutputDelta(p.deep_view()),
            ServerNotification::Error(p) => ServerNotificationView::Error(p.deep_view()),
            ServerNotification::ThreadTokenUsageUpdated(p)
                => ServerNotificationView::ThreadTokenUsageUpdated(p.deep_view()),
            ServerNotification::TurnDiffUpdated(p) => ServerNotificationView::TurnDiffUpdated(
                p.deep_view(),
            ),
            ServerNotification::TurnPlanUpdated(p) => ServerNotificationView::TurnPlanUpdated(
                p.deep_view(),
            ),
            ServerNotification::ItemCommandExecutionTerminalInteraction(p)
                => ServerNotificationView::ItemCommandExecutionTerminalInteraction(p.deep_view()),
            ServerNotification::ItemMcpToolCallProgress(p)
                => ServerNotificationView::ItemMcpToolCallProgress(p.deep_view()),
            ServerNotification::ItemReasoningSummaryPartAdded(p)
                => ServerNotificationView::ItemReasoningSummaryPartAdded(p.deep_view()),
            ServerNotification::ThreadCompacted(p) => ServerNotificationView::ThreadCompacted(
                p.deep_view(),
            ),
            ServerNotification::AccountUpdated(p) => ServerNotificationView::AccountUpdated(
                p.deep_view(),
            ),
            ServerNotification::AccountRateLimitsUpdated(p)
                => ServerNotificationView::AccountRateLimitsUpdated(p.deep_view()),
            ServerNotification::AccountLoginCompleted(p)
                => ServerNotificationView::AccountLoginCompleted(p.deep_view()),
            ServerNotification::McpServerOauthLoginCompleted(p)
                => ServerNotificationView::McpServerOauthLoginCompleted(p.deep_view()),
            ServerNotification::AuthStatusChange(p) => ServerNotificationView::AuthStatusChange(
                p.deep_view(),
            ),
            ServerNotification::LoginChatGptComplete(p)
                => ServerNotificationView::LoginChatGptComplete(p.deep_view()),
            ServerNotification::SessionConfigured(p) => ServerNotificationView::SessionConfigured(
                p.deep_view(),
            ),
            ServerNotification::DeprecationNotice(p) => ServerNotificationView::DeprecationNotice(
                p.deep_view(),
            ),
            ServerNotification::ConfigWarning(p) => ServerNotificationView::ConfigWarning(
                p.deep_view(),
            ),
            ServerNotification::WindowsWorldWritableWarning(p)
                => ServerNotificationView::WindowsWorldWritableWarning(p.deep_view()),
            ServerNotification::RawResponseItemCompleted(p)
                => ServerNotificationView::RawResponseItemCompleted(p.deep_view()),
        }
    }
}

// ---------------------------------------------------------------------------
// status names

/// The wire name of a command-execution status.
pub open spec fn spec_command_status_name(s: CommandExecutionStatus) -> Seq<char> {
    match s {
        CommandExecutionStatus::InProgress => "InProgress"@,
        CommandExecutionStatus::Completed => "Completed"@,
        CommandExecutionStatus::Failed => "Failed"@,
    }
}

pub fn command_status_name(s: &CommandExecutionStatus) -> (r: &'static str)
    ensures
        r@ == spec_command_status_name(*s),
{
    match s {
        CommandExecutionStatus::InProgress => "InProgress",
        CommandExecutionStatus::Completed => "Completed",
        CommandExecutionStatus::Failed => "Failed",
    }
}

/// The wire name of a patch-apply status.
pub open spec fn spec_patch_status_name(s: PatchApplyStatus) -> Seq<char> {
    match s {
        PatchApplyStatus::InProgress => "InProgress"@,
        PatchApplyStatus::Completed => "Completed"@,
        PatchApplyStatus::Failed => "Failed"@,
    }
}

pub fn patch_status_name(s: &PatchApplyStatus) -> (r: &'static str)
    ensures
        r@ == spec_patch_status_name(*s),
{
    match s {
        PatchApplyStatus::InProgress => "InProgress",
        PatchApplyStatus::Completed => "Completed",
        PatchApplyStatus::Failed => "Failed",
    }
}

/// The wire name of an MCP tool-call status.
pub open spec fn spec_mcp_status_name(s: McpToolCallStatus) -> Seq<char> {
    match s {
        McpToolCallStatus::InProgress => "InProgress"@,
        McpToolCallStatus::Completed => "Completed"@,
        McpToolCallStatus::Failed => "Failed"@,
    }
}

pub fn mcp_status_name(s: &McpToolCallStatus) -> (r: &'static str)
    ensures
        r@ == spec_mcp_status_name(*s),
{
    match s {
        McpToolCallStatus::InProgress => "InProgress",
        McpToolCallStatus::Completed => "Completed",
        McpToolCallStatus::Failed => "Failed",
    }
}

/// The wire name of a collaborating-agent tool-call status.
pub open spec fn spec_collab_status_name(s: CollabAgentToolCallStatus) -> Seq<char> {
    match s {
        CollabAgentToolCallStatus::InProgress => "InProgress"@,
        CollabAgentToolCallStatus::Completed => "Completed"@,
        CollabAgentToolCallStatus::Failed => "Failed"@,
    }
}

pub fn collab_status_name(s: &CollabAgentToolCallStatus) -> (r: &'static str)
    ensures
        r@ == spec_collab_status_name(*s),
{
    match s {
        CollabAgentToolCallStatus::InProgress => "InProgress",
        CollabAgentToolCallStatus::Completed => "Completed",
        CollabAgentToolCallStatus::Failed => "Failed",
    }
}

/// The wire name of a collaborating-agent tool.
pub open spec fn spec_collab_tool_name(t: CollabAgentTool) -> Seq<char> {
    match t {
        CollabAgentTool::SpawnAgent => "SpawnAgent"@,
        CollabAgentTool::SendMessage => "SendMessage"@,
        CollabAgentTool::Wait => "Wait"@,
        CollabAgentTool::CloseAgent => "CloseAgent"@,
    }
}

pub fn collab_tool_name(t: &CollabAgentTool) -> (r: &'static str)
    ensures
        r@ == spec_collab_tool_name(*t),
{
    match t {
        CollabAgentTool::SpawnAgent => "SpawnAgent",
        CollabAgentTool::SendMessage => "SendMessage",
        CollabAgentTool::Wait => "Wait",
        CollabAgentTool::CloseAgent => "CloseAgent",
    }
}

} // verus!
