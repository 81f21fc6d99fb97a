//! Turn coordination and profile reconciliation for an interactive chat client.
//!
//! The library holds the decisions of the client as verified functions over
//! plain values: what the conversation log becomes after each input and reply,
//! the order in which a turn's phases happen, the frames of the waiting cue, the
//! characters the renderer emits, and whether a revised user profile is kept or
//! rolled back. The program around it performs the terminal, file and network
//! work and hands the results back.

mod indicator;
mod message;
mod profile;
mod render;
mod request;
mod text;
mod turn;

pub use indicator::{
    blank_frame, closing_frame, cue_label, cycle_frame, dots_frame, law_cue_cycle, repeated,
    step_spec, step_view, IndicatorStep, WaitIndicator, INDICATOR_CYCLE, INDICATOR_STEP_MILLIS,
};
pub use message::{
    after_reply, after_user_input, duplicate_messages, initial_log, law_log_growth, log_wf,
    messages_view, role_name, ConversationLog, Message, Role,
};
pub use profile::{
    changed_span_count, changed_spans, changed_spans_spec, choose_profile_write, content_after,
    count_changed, diff_tags, law_rollback_threshold, profile_write_for, reconcile, write_view,
    written_content, ProfileWrite, ROLLBACK_THRESHOLD,
};
pub use render::{
    render_units, reply_end, reply_label, reply_lead_in, reply_terminator, RENDER_DELAY_MILLIS,
};
pub use request::{
    chat_model, chat_request, check_status, error_message, is_success_status, profile_exchange,
    profile_model, profile_request, reply_text, reply_text_spec, ChatError, Choice,
    CompletionReply, CompletionRequest, PROFILE_MAX_TOKENS,
};
pub use text::{
    has_content, is_white_space, is_white_space_char, trim_end_spec, trim_start_spec, trim_text,
    trimmed,
};
pub use turn::{
    events_in, render_starts_at, stop_precedes_render, turn_script, Phase, TurnCoordinator,
    TurnEvent,
};
