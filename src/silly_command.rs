//! The command catalogue: rows as the database returns them, and the
//! complete commands built from them.

use vstd::prelude::*;

verus! {

/// A command row as stored; any column may be missing.
#[derive(Debug, Default)]
pub struct RawSillyCommandData {
    pub id_silly_command: Option<i32>,
    pub name: Option<String>,
    pub description: Option<String>,
    pub footer_text: Option<String>,
    pub command_type: Option<i32>,
    pub self_texts: Option<Vec<String>>,
    pub self_images: Option<Vec<String>>,
    pub images: Option<Vec<String>>,
    pub preferences: Option<Vec<String>>,
    pub texts: Option<Vec<String>>,
    pub gender_attributes: Option<Vec<String>>,
}

/// Who a command acts on.
#[derive(Debug, Clone, Copy, PartialEq, Eq, Structural)]
pub enum SillyCommandType {
    AuthorOnly,
    SingleUser,
}

/// A complete command.
#[derive(Debug)]
pub struct SillyCommandData {
    pub id_silly_command: i32,
    pub name: String,
    pub description: String,
    pub footer_text: String,
    pub command_type: SillyCommandType,
    pub self_texts: Vec<String>,
    pub self_images: Vec<String>,
    pub preferences: Vec<String>,
    pub images: Vec<String>,
    pub texts: Vec<String>,
    pub gender_attributes: Vec<String>,
}

/// The command type stored as `code`: 1 and 2 are the two types, every other
/// code is invalid.
pub open spec fn command_type_of(code: i32) -> Result<SillyCommandType, ()> {
    if code == 1 {
        Ok(SillyCommandType::AuthorOnly)
    } else if code == 2 {
        Ok(SillyCommandType::SingleUser)
    } else {
        Err(())
    }
}

impl SillyCommandType {
    /// The stored code of the type.
    pub open spec fn spec_code(self) -> i32 {
        match self {
            SillyCommandType::AuthorOnly => 1,
            SillyCommandType::SingleUser => 2,
        }
    }

    /// The code under which the type is stored.
    pub fn code(&self) -> (r: i32)
        ensures
            r == self.spec_code(),
            command_type_of(r) == Ok::<SillyCommandType, ()>(*self),
    {
        match self {
            SillyCommandType::AuthorOnly => 1,
            SillyCommandType::SingleUser => 2,
        }
    }
}

impl TryFrom<i32> for SillyCommandType {
    type Error = ();

    fn try_from(value: i32) -> (r: Result<SillyCommandType, ()>) {
        if value == 1 {
            Ok(SillyCommandType::AuthorOnly)
        } else if value == 2 {
            Ok(SillyCommandType::SingleUser)
        } else {
            Err(())
        }
    }
}

impl vstd::std_specs::convert::TryFromSpecImpl<i32> for SillyCommandType {
    open spec fn obeys_try_from_spec() -> bool {
        true
    }

    open spec fn try_from_spec(v: i32) -> Result<SillyCommandType, ()> {
        command_type_of(v)
    }
}

/// A list column, empty when missing.
pub open spec fn list_or_empty(v: Option<Vec<String>>) -> Seq<String> {
    match v {
        Some(l) => l@,
        None => Seq::empty(),
    }
}

/// A row makes a command when its id, name, type, description and footer are
/// all present and its type code is valid.
pub open spec fn is_complete(raw: RawSillyCommandData) -> bool {
    &&& raw.id_silly_command is Some
    &&& raw.name is Some
    &&& raw.description is Some
    &&& raw.footer_text is Some
    &&& raw.command_type matches Some(c) && command_type_of(c) is Ok
}

/// The command that a complete row makes: its columns, with missing lists
/// read as empty ones.
pub open spec fn makes(raw: RawSillyCommandData, d: SillyCommandData) -> bool {
    &&& Some(d.id_silly_command) == raw.id_silly_command
    &&& Some(d.name) == raw.name
    &&& Some(d.description) == raw.description
    &&& Some(d.footer_text) == raw.footer_text
    &&& raw.command_type matches Some(c) && command_type_of(c) == Ok::<SillyCommandType, ()>(
        d.command_type,
    )
    &&& d.self_texts@ == list_or_empty(raw.self_texts)
    &&& d.self_images@ == list_or_empty(raw.self_images)
    &&& d.preferences@ == list_or_empty(raw.preferences)
    &&& d.images@ == list_or_empty(raw.images)
    &&& d.texts@ == list_or_empty(raw.texts)
    &&& d.gender_attributes@ == list_or_empty(raw.gender_attributes)
}

fn list_or_default(v: Option<Vec<String>>) -> (r: Vec<String>)
    ensures
        r@ == list_or_empty(v),
{
    match v {
        Some(l) => l,
        None => Vec::new(),
    }
}

impl RawSillyCommandData {
    /// The command this row makes, or `None` when a required column is
    /// missing or the type code is invalid.
    pub fn into_silly_command_data(self) -> (r: Option<SillyCommandData>)
        ensures
            is_complete(self) <==> r is Some,
            r matches Some(d) ==> makes(self, d),
    {
        let (id_silly_command, name, command_type, description) = match (
            self.id_silly_command,
            self.name,
            self.command_type,
            self.description,
        ) {
            (Some(id), Some(name), Some(command_type), Some(description)) => {
                (id, name, command_type, description)
            },
            _ => return None,
        };
        let command_type = match SillyCommandType::try_from(command_type) {
            Ok(t) => t,
            Err(_) => return None,
        };
        let footer_text = match self.footer_text {
            Some(text) => text,
            None => return None,
        };
        Some(
            SillyCommandData {
                id_silly_command,
                name,
                description,
                footer_text,
                command_type,
                self_texts: list_or_default(self.self_texts),
                self_images: list_or_default(self.self_images),
                preferences: list_or_default(self.preferences),
                images: list_or_default(self.images),
                texts: list_or_default(self.texts),
                gender_attributes: list_or_default(self.gender_attributes),
            },
        )
    }
}

/// The commands made by the complete rows among `rows`, in row order.
pub open spec fn commands_of(rows: Seq<RawSillyCommandData>, out: Seq<SillyCommandData>) -> bool
    decreases rows.len(),
{
    if rows.len() == 0 {
        out.len() == 0
    } else if is_complete(rows.last()) {
        out.len() > 0 && makes(rows.last(), out.last()) && commands_of(rows.drop_last(), out.drop_last())
    } else {
        commands_of(rows.drop_last(), out)
    }
}

/// Access to the command catalogue.
pub struct SillyCommandPDO;

impl SillyCommandPDO {
    /// The commands made by the complete rows of a catalogue query, in row
    /// order; incomplete rows are skipped.
    pub fn commands_from_rows(rows: Vec<RawSillyCommandData>) -> (r: Vec<SillyCommandData>)
        ensures
            commands_of(rows@, r@),
    {
        let ghost all = rows@;
        let mut out: Vec<SillyCommandData> = Vec::new();
        for raw in it: rows
            invariant
                it.seq() == all,
                commands_of(all.take(it.index() as int), out@),
        {
            let ghost i = it.index() as int;
            proof {
                assert(all.take(i + 1).drop_last() =~= all.take(i));
                assert(all.take(i + 1).last() == raw);
            }
            let ghost before = out@;
            match raw.into_silly_command_data() {
                Some(d) => {
                    out.push(d);
                    proof {
                        assert(out@.drop_last() =~= before);
                    }
                },
                None => {},
            }
        }
        proof {
            assert(all.take(all.len() as int) =~= all);
        }
        out
    }
}

/// Usage count of a command.
pub struct Usages {
    pub usages: i32,
}

/// Usage count of a command by one author on one user.
pub struct CommandUsage {
    pub usages: i32,
}

pub struct CommandUsageId {
    pub id_silly_command_usage: i32,
}

pub struct CommandId {
    pub id_silly_command: i32,
}

pub struct RandomImage {
    pub image: String,
}

pub struct CommandTextId {
    pub id_silly_command_text: i32,
}

pub struct CommandSelfActionTextId {
    pub id_silly_command_self_action_text: i32,
}

pub struct CommandSelfActionImageId {
    pub id_silly_command_self_action: i32,
}

pub struct CommandImageId {
    pub id_silly_command_images: i32,
}

pub struct AddTextRequest {
    pub command_name: String,
    pub content: String,
}

pub struct AddTextAuthorRequest {
    pub command_name: String,
    pub content: String,
}

pub struct AddPreferenceRequest {
    pub command_name: String,
    pub preference: String,
}

pub struct AddCommandRequest {
    pub command_name: String,
    pub description: String,
    pub footer_text: String,
    pub command_type: SillyCommandType,
}

pub struct IncrementCommandUsage {
    pub command: i32,
    pub author: u64,
    pub user: u64,
}

pub struct CreateCommandUsage {
    pub command: i32,
    pub author: u64,
    pub user: u64,
}

pub struct FetchCommandUsage {
    pub command: i32,
}

pub struct FetchRandomSillyImageByNameAndPreference {
    pub command: i32,
    pub preference: String,
}

pub struct FetchSillyCommandByName {
    pub name: String,
}

} // verus!
