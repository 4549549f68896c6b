//! Error taxonomy: config faults, selection faults, and abnormal picker
//! exits. Command spawn failures never leave the process layer, so they
//! have no type here.
use vstd::prelude::*;

verus! {

/// A fault found while applying config data to the menu model.
#[derive(Debug)]
pub enum ConfigError {
    /// A required field was absent when building a new item.
    MissingField { id: String, field: String },
    /// The icon entry was absent or empty when building a new item.
    InvalidIcon { id: String },
    /// A value that had to be "true" or "false" was neither.
    InvalidBoolean { value: String },
    /// A key that no item field answers to, handed to a merge.
    InvalidProperty { key: String },
}

/// The mathematical value of a `ConfigError`.
#[verifier::ext_equal]
pub ghost enum ConfigErrorView {
    MissingField { id: Seq<char>, field: Seq<char> },
    InvalidIcon { id: Seq<char> },
    InvalidBoolean { value: Seq<char> },
    InvalidProperty { key: Seq<char> },
}

impl DeepView for ConfigError {
    type V = ConfigErrorView;

    open spec fn deep_view(&self) -> ConfigErrorView {
        match self {
            ConfigError::MissingField { id, field } => ConfigErrorView::MissingField {
                id: id@,
                field: field@,
            },
            ConfigError::InvalidIcon { id } => ConfigErrorView::InvalidIcon { id: id@ },
            ConfigError::InvalidBoolean { value } => ConfigErrorView::InvalidBoolean {
                value: value@,
            },
            ConfigError::InvalidProperty { key } => ConfigErrorView::InvalidProperty { key: key@ },
        }
    }
}

/// Raised when the picker's answer cannot be mapped to an enabled item.
#[derive(Debug)]
pub enum SelectionError {
    /// The picker's output was not a decimal index.
    NotNumeric { input: String },
    /// The index does not name an enabled item.
    OutOfRange { input: String },
}

/// Raised when the picker process ended abnormally.
#[derive(Debug)]
pub enum PickerError {
    /// The picker exited with a status other than success or the
    /// user-cancelled status.
    AbnormalExit { code: i32 },
    /// The picker was ended without reporting an exit status.
    NoExitCode,
}

} // verus!
