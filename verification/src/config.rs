//! The user's configuration: its defaults and the rules a loaded configuration
//! must meet.
use crate::chars;
use crate::chars::{chars_of, push_str, split_words, string_of};
use vstd::prelude::*;

verus! {

/// The configuration file that is written when there is none.
pub const SCAFFOLD: &'static str = "\
# Diff tool to invoke for generating diffs. Must be on PATH.
# The tool is called with two file paths; ANSI colour output is expected.
diff_tool = \"difft --color always\"

# Colour theme for the TUI. Available values: default, autumn.
theme = \"autumn\"

# Seconds between automatic refreshes of the file list. Minimum: 1.
auto_refresh = 10

# Percentage of terminal height given to the preview pane. Range: 1–99.
preview_split = 50
";

/// The configuration.
#[derive(Debug)]
pub struct Config {
    /// The diff tool and its arguments; it is called with two file paths.
    pub diff_tool: String,
    /// The name of the colour theme.
    pub theme: String,
    /// Seconds between checks for changes to the diff.
    pub auto_refresh: u64,
    /// Percentage of the terminal height given to the file list.
    pub preview_split: u8,
}

pub fn default_diff_tool() -> (r: String)
    ensures
        r@ == "difft --color always"@,
{
    "difft --color always".to_owned()
}

pub fn default_theme() -> (r: String)
    ensures
        r@ == "autumn"@,
{
    "autumn".to_owned()
}

pub fn default_auto_refresh() -> (r: u64)
    ensures
        r == 10,
{
    10
}

pub fn default_preview_split() -> (r: u8)
    ensures
        r == 50,
{
    50
}

impl Default for Config {
    fn default() -> (r: Config)
        ensures
            r.diff_tool@ == "difft --color always"@,
            r.theme@ == "autumn"@,
            r.auto_refresh == 10,
            r.preview_split == 50,
    {
        Config {
            diff_tool: default_diff_tool(),
            theme: default_theme(),
            auto_refresh: default_auto_refresh(),
            preview_split: default_preview_split(),
        }
    }
}

/// Which rule a configuration breaks.
#[derive(Clone, Copy, Debug, PartialEq, Eq, Structural)]
pub enum ConfigFault {
    /// The diff tool's program is missing, or not found on `PATH`.
    DiffToolNotFound,
    /// `auto_refresh` is 0.
    AutoRefreshTooSmall,
    /// `preview_split` is outside 1..=99.
    PreviewSplitOutOfRange,
}

/// A broken rule, with the configured diff tool for the message.
#[derive(Debug)]
pub struct ConfigError {
    pub kind: ConfigFault,
    pub diff_tool: String,
}

/// The rule that a configuration breaks, checked in order, given whether the
/// diff tool's program (its first word) was found on `PATH`.
pub open spec fn spec_validate(
    diff_tool: Seq<char>,
    auto_refresh: u64,
    preview_split: u8,
    found: bool,
) -> Option<ConfigFault> {
    if chars::words(diff_tool).len() == 0 || !found {
        Some(ConfigFault::DiffToolNotFound)
    } else if auto_refresh < 1 {
        Some(ConfigFault::AutoRefreshTooSmall)
    } else if preview_split < 1 || preview_split > 99 {
        Some(ConfigFault::PreviewSplitOutOfRange)
    } else {
        None
    }
}

pub open spec fn outcome_of(r: Result<(), ConfigError>) -> Option<ConfigFault> {
    match r {
        Ok(_) => None,
        Err(e) => Some(e.kind),
    }
}

/// Whether a program is found on `PATH` (the `which` crate's `which`). The answer
/// depends on the machine, so nothing is stated of it.
#[verifier::external_body]
fn found_on_path(program: &str) -> bool {
    which::which(program).is_ok()
}

impl Config {
    /// The diff tool's program: the first word of `diff_tool`, or empty.
    pub fn diff_program(&self) -> (r: String)
        ensures
            chars::words(self.diff_tool@).len() == 0 ==> r@.len() == 0,
            chars::words(self.diff_tool@).len() > 0 ==> r@ == chars::words(self.diff_tool@)[0],
    {
        let cs = chars_of(self.diff_tool.as_str());
        let words = split_words(&cs);
        if words.len() == 0 {
            String::new()
        } else {
            string_of(&words[0])
        }
    }

    /// Checks the rules, given whether the diff tool's program is on `PATH`.
    pub fn validate_with(&self, found: bool) -> (r: Result<(), ConfigError>)
        ensures
            outcome_of(r) == spec_validate(
                self.diff_tool@,
                self.auto_refresh,
                self.preview_split,
                found,
            ),
            r is Err ==> r->Err_0.diff_tool@ == self.diff_tool@,
    {
        let program = self.diff_program();
        proof {
            chars::lemma_nonempty(chars::split(self.diff_tool@, chars::CharClass::Whitespace));
        }
        let fault = if program.as_str().is_empty() || !found {
            Some(ConfigFault::DiffToolNotFound)
        } else if self.auto_refresh < 1 {
            Some(ConfigFault::AutoRefreshTooSmall)
        } else if self.preview_split < 1 || self.preview_split > 99 {
            Some(ConfigFault::PreviewSplitOutOfRange)
        } else {
            None
        };
        match fault {
            Some(kind) => Err(ConfigError { kind, diff_tool: self.diff_tool.clone() }),
            None => Ok(()),
        }
    }

    /// Checks the rules, looking the diff tool's program up on `PATH`. Whether it
    /// is found depends on the machine: the outcome is that of `validate_with` for
    /// one of the two answers, and without a program it is always the missing tool.
    pub fn validate(&self) -> (r: Result<(), ConfigError>)
        ensures
            exists|found: bool|
                outcome_of(r) == #[trigger] spec_validate(
                    self.diff_tool@,
                    self.auto_refresh,
                    self.preview_split,
                    found,
                ),
            r is Err ==> r->Err_0.diff_tool@ == self.diff_tool@,
    {
        let program = self.diff_program();
        let found = if program.as_str().is_empty() {
            false
        } else {
            found_on_path(program.as_str())
        };
        self.validate_with(found)
    }
}

impl ConfigError {
    pub open spec fn spec_message(&self) -> Seq<char> {
        match self.kind {
            ConfigFault::DiffToolNotFound => "diff tool '"@ + self.diff_tool@
                + "' not found on PATH \u{2014} install it or set a different tool in ~/.config/grit/config.toml"@,
            ConfigFault::AutoRefreshTooSmall => "auto_refresh must be at least 1 second"@,
            ConfigFault::PreviewSplitOutOfRange => "preview_split must be between 1 and 99"@,
        }
    }

    /// The message shown for this error.
    pub fn message(&self) -> (r: String)
        ensures
            r@ == self.spec_message(),
    {
        match self.kind {
            ConfigFault::DiffToolNotFound => {
                let mut v: Vec<char> = Vec::new();
                push_str(&mut v, "diff tool '");
                push_str(&mut v, self.diff_tool.as_str());
                push_str(
                    &mut v,
                    "' not found on PATH \u{2014} install it or set a different tool in ~/.config/grit/config.toml",
                );
                string_of(&v)
            },
            ConfigFault::AutoRefreshTooSmall => "auto_refresh must be at least 1 second".to_owned(),
            ConfigFault::PreviewSplitOutOfRange => "preview_split must be between 1 and 99".to_owned(),
        }
    }
}

} // verus!
