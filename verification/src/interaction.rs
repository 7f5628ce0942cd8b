use vstd::prelude::*;
use vstd::string::*;
use crate::error::{RailwayError, is_internal};
use crate::text::str_equals;

verus! {

/// The value of an option that carries a value.
pub enum LeafValue {
    String(String),
    Integer(i64),
    User(u64),
    Other,
}

/// An option of a subcommand.
pub struct LeafOption {
    pub name: String,
    pub value: LeafValue,
}

/// The value of an option inside a subcommand group.
pub enum SubValue {
    SubCommand(Vec<LeafOption>),
    Other,
}

/// An option inside a subcommand group.
pub struct SubOption {
    pub name: String,
    pub value: SubValue,
}

/// The value of a top-level option of a slash command.
pub enum TopValue {
    SubCommand(Vec<LeafOption>),
    SubCommandGroup(Vec<SubOption>),
    Leaf(LeafValue),
}

/// A top-level option of a slash command.
pub struct TopOption {
    pub name: String,
    pub value: TopValue,
}

/// What an interaction carries.
pub enum InteractionData {
    /// A slash command with its options.
    ApplicationCommand { name: String, options: Vec<TopOption> },
    /// A click on a button or a menu.
    MessageComponent { custom_id: String },
    /// Anything else.
    Other,
    /// No data.
    Missing,
}

/// An interaction, reduced to what the bot reads.
pub struct InteractionContext {
    pub guild_id: Option<u64>,
    pub user_id: Option<u64>,
    pub data: InteractionData,
}

/// The index of the first option named `name`, from position `i` on.
pub open spec fn first_leaf_named(opts: Seq<LeafOption>, name: Seq<char>, i: int) -> Option<int>
    decreases opts.len() - i,
{
    if i < 0 || i >= opts.len() {
        None
    } else if opts[i].name@ == name {
        Some(i)
    } else {
        first_leaf_named(opts, name, i + 1)
    }
}

/// The value of the first option named `name`, if that option is a string.
pub open spec fn named_string(opts: Seq<LeafOption>, name: Seq<char>) -> Option<Seq<char>> {
    match first_leaf_named(opts, name, 0) {
        Some(i) => match opts[i].value {
            LeafValue::String(s) => Some(s@),
            _ => None,
        },
        None => None,
    }
}

/// The value of the first option named `name`, if that option is an integer.
pub open spec fn named_integer(opts: Seq<LeafOption>, name: Seq<char>) -> Option<i64> {
    match first_leaf_named(opts, name, 0) {
        Some(i) => match opts[i].value {
            LeafValue::Integer(v) => Some(v),
            _ => None,
        },
        None => None,
    }
}

/// The value of the first option named `name`, if that option is a user.
pub open spec fn named_user(opts: Seq<LeafOption>, name: Seq<char>) -> Option<u64> {
    match first_leaf_named(opts, name, 0) {
        Some(i) => match opts[i].value {
            LeafValue::User(v) => Some(v),
            _ => None,
        },
        None => None,
    }
}

/// The first option named `name` (`Iterator::find` on the name).
pub fn find_leaf<'a>(opts: &'a Vec<LeafOption>, name: &str) -> (r: Option<&'a LeafOption>)
    ensures
        match first_leaf_named(opts@, name@, 0) {
            Some(i) => r == Some(&opts@[i]),
            None => r is None,
        },
{
    let n = opts.len();
    let mut i: usize = 0;
    while i < n
        invariant
            n == opts@.len(),
            i <= n,
            first_leaf_named(opts@, name@, i as int) == first_leaf_named(opts@, name@, 0),
        decreases n - i,
    {
        if str_equals(opts[i].name.as_str(), name) {
            return Some(&opts[i]);
        }
        i = i + 1;
    }
    None
}

/// The string value of the first option named `name`.
pub fn find_string(opts: &Vec<LeafOption>, name: &str) -> (r: Option<String>)
    ensures
        match r {
            Some(s) => named_string(opts@, name@) == Some(s@),
            None => named_string(opts@, name@) is None,
        },
{
    match find_leaf(opts, name) {
        Some(o) => match &o.value {
            LeafValue::String(s) => Some(s.clone()),
            _ => None,
        },
        None => None,
    }
}

/// The integer value of the first option named `name`.
pub fn find_integer(opts: &Vec<LeafOption>, name: &str) -> (r: Option<i64>)
    ensures
        r == named_integer(opts@, name@),
{
    match find_leaf(opts, name) {
        Some(o) => match &o.value {
            LeafValue::Integer(v) => Some(*v),
            _ => None,
        },
        None => None,
    }
}

/// The user value of the first option named `name`.
pub fn find_user(opts: &Vec<LeafOption>, name: &str) -> (r: Option<u64>)
    ensures
        r == named_user(opts@, name@),
{
    match find_leaf(opts, name) {
        Some(o) => match &o.value {
            LeafValue::User(v) => Some(*v),
            _ => None,
        },
        None => None,
    }
}

/// The value of the first top-level option named `name` whose value is a string.
pub open spec fn top_string(opts: Seq<TopOption>, name: Seq<char>, i: int) -> Option<Seq<char>>
    decreases opts.len() - i,
{
    if i < 0 || i >= opts.len() {
        None
    } else if opts[i].name@ == name {
        match opts[i].value {
            TopValue::Leaf(LeafValue::String(s)) => Some(s@),
            _ => top_string(opts, name, i + 1),
        }
    } else {
        top_string(opts, name, i + 1)
    }
}

/// The value of the first top-level option named `name` whose value is an integer.
pub open spec fn top_integer(opts: Seq<TopOption>, name: Seq<char>, i: int) -> Option<i64>
    decreases opts.len() - i,
{
    if i < 0 || i >= opts.len() {
        None
    } else if opts[i].name@ == name {
        match opts[i].value {
            TopValue::Leaf(LeafValue::Integer(v)) => Some(v),
            _ => top_integer(opts, name, i + 1),
        }
    } else {
        top_integer(opts, name, i + 1)
    }
}

impl InteractionContext {
    /// The name of the slash command.
    pub fn extract_command_name(&self) -> (r: Result<&str, RailwayError>)
        ensures
            match self.data {
                InteractionData::ApplicationCommand { name, .. } => r matches Ok(n) && n@ == name@,
                _ => r matches Err(e) && is_internal(e, "Interaction has no command data"@),
            },
    {
        match &self.data {
            InteractionData::ApplicationCommand { name, .. } => Ok(name.as_str()),
            _ => Err(RailwayError::internal("Interaction has no command data")),
        }
    }

    /// The custom id of the clicked component.
    pub fn extract_custom_id(&self) -> (r: Result<&str, RailwayError>)
        ensures
            match self.data {
                InteractionData::MessageComponent { custom_id } => r matches Ok(n) && n@ == custom_id@,
                _ => r matches Err(e) && is_internal(e, "Interaction is not a message component"@),
            },
    {
        match &self.data {
            InteractionData::MessageComponent { custom_id } => Ok(custom_id.as_str()),
            _ => Err(RailwayError::internal("Interaction is not a message component")),
        }
    }

    /// Whether the interaction is a click on a component.
    pub fn is_component(&self) -> (r: bool)
        ensures
            r == (self.data is MessageComponent),
    {
        match &self.data {
            InteractionData::MessageComponent { .. } => true,
            _ => false,
        }
    }

    /// The value of the first top-level string option named `name`.
    #[verifier::loop_isolation(false)]
    pub fn extract_string_option(&self, name: &str) -> (r: Option<String>)
        ensures
            match self.data {
                InteractionData::ApplicationCommand { options, .. } => match r {
                    Some(s) => top_string(options@, name@, 0) == Some(s@),
                    None => top_string(options@, name@, 0) is None,
                },
                _ => r is None,
            },
    {
        if let InteractionData::ApplicationCommand { options, .. } = &self.data {
            let n = options.len();
            let mut i: usize = 0;
            while i < n
                invariant
                    n == options@.len(),
                    i <= n,
                    top_string(options@, name@, i as int) == top_string(options@, name@, 0),
                decreases n - i,
            {
                let opt = &options[i];
                if str_equals(opt.name.as_str(), name) {
                    if let TopValue::Leaf(LeafValue::String(s)) = &opt.value {
                        return Some(s.clone());
                    }
                }
                i = i + 1;
            }
        }
        None
    }

    /// The value of the first top-level integer option named `name`.
    #[verifier::loop_isolation(false)]
    pub fn extract_integer_option(&self, name: &str) -> (r: Option<i64>)
        ensures
            match self.data {
                InteractionData::ApplicationCommand { options, .. } => r == top_integer(options@, name@, 0),
                _ => r is None,
            },
    {
        if let InteractionData::ApplicationCommand { options, .. } = &self.data {
            let n = options.len();
            let mut i: usize = 0;
            while i < n
                invariant
                    n == options@.len(),
                    i <= n,
                    top_integer(options@, name@, i as int) == top_integer(options@, name@, 0),
                decreases n - i,
            {
                let opt = &options[i];
                if str_equals(opt.name.as_str(), name) {
                    if let TopValue::Leaf(LeafValue::Integer(v)) = &opt.value {
                        return Some(*v);
                    }
                }
                i = i + 1;
            }
        }
        None
    }
}

} // verus!
