//! Live-reload core: coalescing filesystem events into debounced batches,
//! classifying changed paths by extension, framing the wire messages, and
//! deciding each connection session's next step.

mod classify;
mod debounce;
mod wire;
mod session;
mod watcher;
mod clock;

pub use classify::{
    classify_batch, classify_path, event_passes, filter_valid_ft, is_allowed_extension,
    kind_of_extension, lemma_kind_by_extension, FsEventKind, RawFsEvent, UpdateKind, UpdateRecord,
};
pub use debounce::{
    due, events_of, feed, flatten_batches, idle, is_burst, items, lemma_burst_is_one_batch,
    lemma_events_conserved, lemma_two_bursts_two_batches, on_event, on_tick, run, DebouncedBatch, Debouncer, DEFAULT_WINDOW_MS,
};
pub use wire::{
    decimal, encode_message, encode_update, message_json, record_json, record_text,
    json_escape, json_escaped, json_quoted, records_json, records_view,
    update_json, EncodeError, HmrMessage,
};
pub use session::{
    action_for, lemma_handshake_first, lemma_streaming_session_delivers, next_state,
    ConnectionSession, SessionAction, SessionEvent, SessionState,
};
pub use watcher::{lemma_single_change_published, publication, publishes, Watcher};
pub use clock::{epoch_ms, lemma_epoch_ms_monotone, millis_since_epoch, now_ms};
