//! Editing Scoop's configuration one field at a time: setting a field to a
//! JSON value, or removing it so that the field takes its default.

use vstd::prelude::*;
use vstd::string::*;

use crate::config::Scoop;
use crate::text::str_eq;

verus! {

/// `serde_json::Number`, a JSON number
#[verifier::external_type_specification]
#[verifier::external_body]
pub struct ExNumber(serde_json::Number);

/// A JSON value to set a configuration field to
#[derive(Debug)]
pub enum ConfigValue {
    Null,
    Bool(bool),
    Number(serde_json::Number),
    String(String),
    Array,
    Object,
}

/// Why the configuration could not take a value
#[derive(Debug, Copy, Clone, PartialEq, Eq, Structural)]
pub enum ConfigError {
    /// The field does not hold values of this JSON type
    InvalidType,
}

/// Whether the JSON number parser of `serde_json` accepts the text.
pub uninterp spec fn json_number_accepts(s: Seq<char>) -> bool;

/// `<serde_json::Number as FromStr>::from_str`: the text read as a JSON
/// number, if it is one. It accepts `s` exactly when `json_number_accepts`
/// holds of it; a number it accepts starts with `-` or a digit. Which number
/// it holds is not stated.
#[verifier::external_body]
fn parse_json_number(s: &str) -> (r: Option<serde_json::Number>)
    ensures
        r is Some <==> json_number_accepts(s@),
        r is Some ==> s@.len() > 0 && (s@[0] == '-' || ('0' <= s@[0] && s@[0] <= '9')),
{
    s.parse::<serde_json::Number>().ok()
}

/// The sorts of JSON value that a command line argument can stand for
#[derive(Debug, Copy, Clone, PartialEq, Eq, Structural)]
pub enum ValueKind {
    True,
    False,
    Number,
    Text,
}

/// The JSON value that a command line argument stands for: a boolean for
/// "true" and "false", a number where it reads as one, a string otherwise.
pub open spec fn value_kind(s: Seq<char>) -> ValueKind {
    if s == "true"@ {
        ValueKind::True
    } else if s == "false"@ {
        ValueKind::False
    } else if json_number_accepts(s) {
        ValueKind::Number
    } else {
        ValueKind::Text
    }
}

/// The JSON value a command line argument stands for
pub fn string_to_value(string: &str) -> (v: ConfigValue)
    ensures
        value_kind(string@) is True ==> v == ConfigValue::Bool(true),
        value_kind(string@) is False ==> v == ConfigValue::Bool(false),
        value_kind(string@) is Number <==> v is Number,
        value_kind(string@) is Text <==> (v matches ConfigValue::String(t) && t@ == string@),
{
    if str_eq(string, "true") {
        return ConfigValue::Bool(true);
    }
    if str_eq(string, "false") {
        return ConfigValue::Bool(false);
    }
    if let Some(number) = parse_json_number(string) {
        return ConfigValue::Number(number);
    }
    ConfigValue::String(String::from_str(string))
}

/// An edit of the configuration
enum Operation {
    Remove(String),
    Insert { field: String, value: ConfigValue },
}

/// The configuration after a field was removed from its JSON object: an
/// optional field becomes `None`, the branch becomes "master", and a name
/// that is no field changes nothing.
pub open spec fn removed(old: Scoop, new: Scoop, field: Seq<char>) -> bool {
    if field == "last_update"@ {
        new.last_update is None && new.scoop_repo == old.scoop_repo && new.scoop_branch
            == old.scoop_branch && new.root_path == old.root_path
    } else if field == "scoop_repo"@ {
        new.last_update == old.last_update && new.scoop_repo is None && new.scoop_branch
            == old.scoop_branch && new.root_path == old.root_path
    } else if field == "scoop_branch"@ {
        new.last_update == old.last_update && new.scoop_repo == old.scoop_repo
            && new.scoop_branch@ == "master"@ && new.root_path == old.root_path
    } else if field == "root_path"@ {
        new.last_update == old.last_update && new.scoop_repo == old.scoop_repo && new.scoop_branch
            == old.scoop_branch && new.root_path is None
    } else {
        new == old
    }
}

/// An optional field takes `value`: `null` clears it, a string sets it.
pub open spec fn takes_optional(new: Option<String>, value: ConfigValue) -> bool {
    match value {
        ConfigValue::Null => new is None,
        ConfigValue::String(s) => new matches Some(t) && t@ == s@,
        _ => false,
    }
}

/// An optional field accepts the value: `null` or a string.
pub open spec fn fits_optional(value: ConfigValue) -> bool {
    value is Null || value is String
}

/// The configuration after a field of its JSON object was set to `value` and
/// the object read back: a field that cannot hold the value fails the edit
/// and leaves the configuration unchanged, and a name that is no field changes nothing.
pub open spec fn set_to(old: Scoop, new: Scoop, field: Seq<char>, value: ConfigValue, r: Result<(), ConfigError>) -> bool {
    if field == "last_update"@ {
        if fits_optional(value) {
            r is Ok && takes_optional(new.last_update, value) && new.scoop_repo == old.scoop_repo
                && new.scoop_branch == old.scoop_branch && new.root_path == old.root_path
        } else {
            r == Err::<(), ConfigError>(ConfigError::InvalidType) && new == old
        }
    } else if field == "scoop_repo"@ {
        if fits_optional(value) {
            r is Ok && new.last_update == old.last_update && takes_optional(new.scoop_repo, value)
                && new.scoop_branch == old.scoop_branch && new.root_path == old.root_path
        } else {
            r == Err::<(), ConfigError>(ConfigError::InvalidType) && new == old
        }
    } else if field == "scoop_branch"@ {
        match value {
            ConfigValue::String(s) => r is Ok && new.last_update == old.last_update && new.scoop_repo
                == old.scoop_repo && new.scoop_branch@ == s@ && new.root_path == old.root_path,
            _ => r == Err::<(), ConfigError>(ConfigError::InvalidType) && new == old,
        }
    } else if field == "root_path"@ {
        if fits_optional(value) {
            r is Ok && new.last_update == old.last_update && new.scoop_repo == old.scoop_repo
                && new.scoop_branch == old.scoop_branch && takes_optional(new.root_path, value)
        } else {
            r == Err::<(), ConfigError>(ConfigError::InvalidType) && new == old
        }
    } else {
        r is Ok && new == old
    }
}

/// Edits a configuration in place
#[derive(Debug)]
pub struct ManageConfig<'a> {
    pub config: &'a mut Scoop,
}

/// The optional field after taking a value that fits it.
fn optional_value(value: ConfigValue) -> (r: Option<String>)
    requires
        fits_optional(value),
    ensures
        takes_optional(r, value),
{
    match value {
        ConfigValue::String(s) => Some(s),
        _ => None,
    }
}

impl<'a> ManageConfig<'a> {
    /// An editor of the given configuration
    pub fn new(config: &'a mut Scoop) -> (m: ManageConfig<'a>)
        ensures
            *m.config == *old(config),
            *final(m.config) == *final(config),
    {
        Self { config }
    }

    /// Remove a field, so that it takes its default
    pub fn remove(&mut self, field: &str) -> (r: Result<(), ConfigError>)
        ensures
            r is Ok,
            removed(*old(self).config, *final(self).config, field@),
            *final(final(self).config) == *final(old(self).config),
    {
        self.execute(Operation::Remove(String::from_str(field)))
    }

    /// Set a field to a JSON value
    pub fn set(&mut self, field: &str, value: ConfigValue) -> (r: Result<(), ConfigError>)
        ensures
            set_to(*old(self).config, *final(self).config, field@, value, r),
            *final(final(self).config) == *final(old(self).config),
    {
        self.execute(Operation::Insert { field: String::from_str(field), value })
    }

    fn execute(&mut self, operation: Operation) -> (r: Result<(), ConfigError>)
        ensures
            match operation {
                Operation::Remove(field) => r is Ok && removed(
                    *old(self).config,
                    *final(self).config,
                    field@,
                ),
                Operation::Insert { field, value } => set_to(
                    *old(self).config,
                    *final(self).config,
                    field@,
                    value,
                    r,
                ),
            },
            *final(final(self).config) == *final(old(self).config),
    {
        match operation {
            Operation::Remove(field) => {
                let f = field.as_str();
                if str_eq(f, "last_update") {
                    self.config.last_update = None;
                } else if str_eq(f, "scoop_repo") {
                    self.config.scoop_repo = None;
                } else if str_eq(f, "scoop_branch") {
                    self.config.scoop_branch = String::from_str("master");
                } else if str_eq(f, "root_path") {
                    self.config.root_path = None;
                }
                Ok(())
            },
            Operation::Insert { field, value } => {
                let f = field.as_str();
                if str_eq(f, "last_update") {
                    if !(matches!(value, ConfigValue::Null) || matches!(value, ConfigValue::String(_))) {
                        return Err(ConfigError::InvalidType);
                    }
                    self.config.last_update = optional_value(value);
                } else if str_eq(f, "scoop_repo") {
                    if !(matches!(value, ConfigValue::Null) || matches!(value, ConfigValue::String(_))) {
                        return Err(ConfigError::InvalidType);
                    }
                    self.config.scoop_repo = optional_value(value);
                } else if str_eq(f, "scoop_branch") {
                    match value {
                        ConfigValue::String(s) => {
                            self.config.scoop_branch = s;
                        },
                        _ => {
                            return Err(ConfigError::InvalidType);
                        },
                    }
                } else if str_eq(f, "root_path") {
                    if !(matches!(value, ConfigValue::Null) || matches!(value, ConfigValue::String(_))) {
                        return Err(ConfigError::InvalidType);
                    }
                    self.config.root_path = optional_value(value);
                }
                Ok(())
            },
        }
    }
}

/// What a configuration holds, field by field.
pub open spec fn config_view(c: Scoop) -> (Option<Seq<char>>, Option<Seq<char>>, Seq<char>, Option<Seq<char>>) {
    (
        crate::text::opt_string_view(c.last_update),
        crate::text::opt_string_view(c.scoop_repo),
        c.scoop_branch@,
        crate::text::opt_string_view(c.root_path),
    )
}

/// Removing a field after setting it leaves the configuration as removing
/// the field alone does, whether the setting succeeded or failed.
pub proof fn lemma_remove_after_set(
    start: Scoop,
    after_set: Scoop,
    after_both: Scoop,
    after_remove: Scoop,
    field: Seq<char>,
    value: ConfigValue,
    r: Result<(), ConfigError>,
)
    requires
        set_to(start, after_set, field, value, r),
        removed(after_set, after_both, field),
        removed(start, after_remove, field),
    ensures
        config_view(after_both) == config_view(after_remove),
{
}

/// Removing a field twice leaves the configuration as removing it once.
pub proof fn lemma_remove_idempotent(start: Scoop, once: Scoop, twice: Scoop, field: Seq<char>)
    requires
        removed(start, once, field),
        removed(once, twice, field),
    ensures
        config_view(twice) == config_view(once),
{
}

/// Setting a field to a string that it can hold reads back that string.
pub proof fn lemma_set_reads_back(start: Scoop, after: Scoop, field: Seq<char>, value: ConfigValue, r: Result<(), ConfigError>)
    requires
        set_to(start, after, field, value, r),
        value is String,
    ensures
        field == "last_update"@ ==> config_view(after).0 == Some(value->String_0@),
        field == "scoop_repo"@ ==> config_view(after).1 == Some(value->String_0@),
        field == "scoop_branch"@ ==> config_view(after).2 == value->String_0@,
        field == "root_path"@ ==> config_view(after).3 == Some(value->String_0@),
        r is Ok,
{
    reveal_strlit("last_update");
    reveal_strlit("scoop_repo");
    reveal_strlit("scoop_branch");
    reveal_strlit("root_path");
    if field == "scoop_repo"@ || field == "scoop_branch"@ || field == "root_path"@ {
        assert(field.len() != 11 || field[0] != 'l');
    }
    if field == "scoop_branch"@ || field == "root_path"@ {
        assert(field.len() != 10 || field[6] != 'r');
    }
    if field == "root_path"@ {
        assert(field.len() == 9);
    }
}

} // verus!
