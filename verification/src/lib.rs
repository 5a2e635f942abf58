//! Verified core of an LXI instrument-chassis client: session and card
//! handle lifecycle, driver status-code translation, and rendering of
//! diagnostic text.
//!
//! The native driver itself (network connect/disconnect, card open/close,
//! identity and error-text lookups) is an outside capability: an unverified
//! front end performs those calls and feeds their raw results back into the
//! verified state machine here, which decides every step of the sequence and
//! guarantees the release order of the handles.

mod errors;
mod orchestrate;
mod text;
mod trace;
mod version;

pub use errors::PicmlxError;
pub use errors::PiplxError;
pub use errors::decode_message_lookup;
pub use errors::picmlx_error_wrapper;
pub use errors::piplx_error_wrapper;
pub use errors::render_picmlx_error;
pub use errors::render_piplx_error;
pub use errors::spec_picmlx_prefix;
pub use errors::spec_piplx_prefix;
pub use errors::spec_rendered_error;
pub use errors::spec_resolution_text;
pub use errors::spec_unknown_code_text;
pub use errors::unknown_code_text;

pub use orchestrate::CardHandle;
pub use orchestrate::CardLocation;
pub use orchestrate::CleanupWarning;
pub use orchestrate::Command;
pub use orchestrate::DriverEvent;
pub use orchestrate::DriverEventModel;
pub use orchestrate::Endpoint;
pub use orchestrate::Orchestrator;
pub use orchestrate::OrchestratorModel;
pub use orchestrate::Phase;
pub use orchestrate::RunError;
pub use orchestrate::RunReport;
pub use orchestrate::RunReportModel;
pub use orchestrate::SessionHandle;
pub use orchestrate::event_matches;
pub use orchestrate::init_model;
pub use orchestrate::spec_report;
pub use orchestrate::spec_step;

pub use text::decimal_digits;
pub use text::lemma_text_before_nul_is_prefix;
pub use text::spec_decimal_digits;
pub use text::spec_text_before_nul;
pub use text::text_before_nul;

pub use trace::close_count;
pub use trace::completes;
pub use trace::disconnect_count;
pub use trace::lemma_connect_failure_run;
pub use trace::lemma_full_run;
pub use trace::lemma_open_failure_run;
pub use trace::lemma_release_never_repeated;
pub use trace::lemma_session_released_exactly_once;
pub use trace::run_end;
pub use trace::run_trace;
pub use trace::valid_events;

pub use version::VersionInfo;
pub use version::render_version;
pub use version::spec_rendered_version;
