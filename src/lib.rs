//! Keeps a packet filter's prefix sets in step with a live routing feed:
//! frames are decoded into updates, updates are planned into add/delete
//! directives, and each directive becomes one call of the set mutator.

pub mod family;
pub mod text;
pub mod json;
pub mod update;
pub mod executor;
pub mod decode;

pub use family::{ipset_table, is_v6};
pub use text::same_text;
pub use update::{
    is_actionable, on_update, plan, Annoucment, CallMutator, Data, Directive, Mutator, Recorder, RisBgpMessage,
    Verb,
};
pub use executor::{mutation_outcome, mutator_args, ExecutionError};
pub use json::{get_field, Json};
pub use decode::{decode, decode_data, parse_message, DecodeError};
