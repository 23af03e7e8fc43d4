//! Bootstrap of an out-of-process crash helper.
//!
//! The library holds the decisions of the bootstrap: how the helper's
//! argument and environment vectors are laid out, how the immediate child's
//! termination is classified, and when a client handle comes into being.
//! The process creation and the wait themselves are performed by the caller,
//! which feeds what happened back into a [`SpawnState`].

mod argv;
mod client;
mod error;
mod lifecycle;
mod text;

pub use argv::{
    all_c_text, argument_vector, arguments_outcome, byte_strings, env_entry, env_entry_text,
    env_texts, environment_block, first_invalid, first_non_c_text, helper_arguments,
    spawn_arguments,
};
pub use client::{prepare_for_minidump, CrashHelperClient};
pub use error::BootstrapError;
pub use lifecycle::{
    action_of, classification, classify_exit, is_finished, lemma_any_exit_code_succeeds,
    lemma_finished_states_are_final, lemma_interruption_is_ignored,
    lemma_interruptions_do_not_change_the_outcome, lemma_only_termination_ends_the_wait,
    lemma_refused_spawn_never_succeeds, lemma_signal_fails_with_status, run, transition,
    without_interruptions, SpawnAction, SpawnEvent, SpawnState, WaitOutcome,
};
pub use text::{
    decimal_digits, decimal_text, has_no_nul, is_c_text, lemma_decimal_digits_is_c_text,
    lemma_decimal_text_is_c_text, pid_text, push_decimal,
};
