//! The plain records that CPDB backends send over D-Bus, as the library
//! receives them.

use vstd::prelude::*;

verus! {

/// One option record of a `GetAllOptions` reply.
#[derive(Debug, Clone)]
pub struct RawOption {
    /// The option name.
    pub option_name: String,
    /// The option group name.
    pub group_name: String,
    /// The default value.
    pub default_value: String,
    /// The number of supported values the backend announced.
    pub num_supported: i32,
    /// The supported values, each wrapped in a one-field record.
    pub supported_values: Vec<(String,)>,
}

/// One margin record of a `GetAllOptions` reply.
#[derive(Debug, Clone)]
pub struct RawMargin {
    /// Left margin.
    pub left: i32,
    /// Right margin.
    pub right: i32,
    /// Top margin.
    pub top: i32,
    /// Bottom margin.
    pub bottom: i32,
}

/// One media record of a `GetAllOptions` reply.
#[derive(Debug, Clone)]
pub struct RawMedia {
    /// The media name.
    pub name: String,
    /// Width in hundredths of a millimetre.
    pub width: i32,
    /// Length in hundredths of a millimetre.
    pub length: i32,
    /// The number of margin sets the backend announced.
    pub num_margins: i32,
    /// The margin sets.
    pub margins: Vec<RawMargin>,
}

/// One printer record of a `GetAllPrinters` reply: id, name, info,
/// location, make and model, accepting jobs, state, backend.
pub type RawPrinter = (String, String, String, String, String, bool, String, String);

} // verus!
