//! The application's settings and how they are written out.

use vstd::prelude::*;

verus! {

/// How much the application logs.
#[derive(Debug)]
pub enum LogLevel {
    Info,
    Debug,
    Error,
}

/// The settings of one run. Every combination of the two fields is a
/// valid setting.
#[derive(Debug)]
pub struct AppConfig {
    pub debug_mode: bool,
    pub log_level: LogLevel,
}

/// The word for a truth value.
pub open spec fn bool_text(b: bool) -> Seq<char> {
    if b {
        "true"@
    } else {
        "false"@
    }
}

impl LogLevel {
    /// The name of the level, as a specification.
    pub open spec fn spec_name(&self) -> Seq<char> {
        match self {
            LogLevel::Info => "Info"@,
            LogLevel::Debug => "Debug"@,
            LogLevel::Error => "Error"@,
        }
    }

    /// The name of the level, as it is written in the source.
    pub fn name(&self) -> (name: &'static str)
        ensures
            name@ == self.spec_name(),
    {
        match self {
            LogLevel::Info => "Info",
            LogLevel::Debug => "Debug",
            LogLevel::Error => "Error",
        }
    }
}

impl AppConfig {
    /// The settings written out field by field, as a specification.
    pub open spec fn spec_debug_text(&self) -> Seq<char> {
        "AppConfig { debug_mode: "@ + bool_text(self.debug_mode) + ", log_level: "@
            + self.log_level.spec_name() + " }"@
    }

    /// The settings written out field by field, in the form
    /// `AppConfig { debug_mode: true, log_level: Debug }`.
    pub fn debug_text(&self) -> (text: String)
        ensures
            text@ == self.spec_debug_text(),
    {
        let mut text = String::from_str("AppConfig { debug_mode: ");
        text.append(if self.debug_mode { "true" } else { "false" });
        text.append(", log_level: ");
        text.append(self.log_level.name());
        text.append(" }");
        text
    }
}

} // verus!
