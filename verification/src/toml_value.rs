//! A TOML document as plain values, for the few places that look into one.

use vstd::prelude::*;
use crate::text::same_text;

verus! {

/// A value of a TOML document.
#[derive(Debug)]
pub enum TomlValue {
    Text(String),
    Integer(i64),
    Boolean(bool),
    Array(Vec<TomlValue>),
    /// The members in the order of the document.
    Table(Vec<(String, TomlValue)>),
    /// A float or a date, which nothing here reads.
    Other,
}

/// Where the first member with the name stands, or the number of members
/// where none has it.
pub open spec fn member_index(members: Seq<(String, TomlValue)>, name: Seq<char>) -> int
    decreases members.len(),
{
    if members.len() == 0 {
        0
    } else if members[0].0@ == name {
        0
    } else {
        1 + member_index(members.drop_first(), name)
    }
}

impl TomlValue {
    /// The first member of a table with the name, where the value is a
    /// table and has one.
    pub open spec fn spec_get(self, name: Seq<char>) -> Option<TomlValue> {
        match self {
            TomlValue::Table(members) => {
                let at = member_index(members@, name);
                if 0 <= at < members@.len() {
                    Some(members@[at].1)
                } else {
                    None
                }
            },
            _ => None,
        }
    }

    /// The member of a table with the name.
    #[verifier::loop_isolation(false)]
    pub fn get(&self, name: &str) -> (member: Option<&TomlValue>)
        ensures
            match member {
                Some(value) => self.spec_get(name@) == Some(*value),
                None => self.spec_get(name@).is_none(),
            },
    {
        match self {
            TomlValue::Table(members) => {
                let mut i: usize = 0;
                assert(members@.skip(0) =~= members@);
                while i < members.len()
                    invariant
                        i <= members.len(),
                        member_index(members@, name@) == i + member_index(
                            members@.skip(i as int),
                            name@,
                        ),
                    decreases members.len() - i,
                {
                    proof {
                        assert(members@.skip(i as int)[0] == members@[i as int]);
                        assert(members@.skip(i as int).drop_first() =~= members@.skip(i + 1));
                    }
                    if same_text(members[i].0.as_str(), name) {
                        return Some(&members[i].1);
                    }
                    i += 1;
                }
                assert(members@.skip(members@.len() as int) =~= Seq::empty());
                None
            },
            _ => None,
        }
    }

    pub fn is_table(&self) -> (yes: bool)
        ensures
            yes == (*self is Table),
    {
        match self {
            TomlValue::Table(_) => true,
            _ => false,
        }
    }

    /// The text of a value that is one.
    pub fn as_str(&self) -> (text: Option<&str>)
        ensures
            match text {
                Some(s) => *self matches TomlValue::Text(t) && s@ == t@,
                None => !(*self is Text),
            },
    {
        match self {
            TomlValue::Text(text) => Some(text.as_str()),
            _ => None,
        }
    }
}

} // verus!
