//! Turning what a user typed into commands and entities.
use vstd::prelude::*;
use crate::animal_structs::{class_of_tag, AnimalData, Class, Sex};
use crate::custom_string_methods::CustomStringMethods;
use crate::store_error::StoreError;
use crate::text::{split_hyphen, split_on_hyphen, str_eq};

verus! {

/// A command of the simulation's prompt.
#[derive(PartialEq, Eq, Debug, Clone, Copy, Structural)]
pub enum Command {
    Create,
    Delete,
    Read,
    Spawn,
    Reproduce,
    Kill,
    Feed,
    Count,
    Help,
    Exit,
}

/// The command that a typed word names, if any.
pub open spec fn command_of_word(w: Seq<char>) -> Option<Command> {
    if w == "create"@ {
        Some(Command::Create)
    } else if w == "delete"@ {
        Some(Command::Delete)
    } else if w == "read"@ {
        Some(Command::Read)
    } else if w == "spawn"@ {
        Some(Command::Spawn)
    } else if w == "reproduce"@ {
        Some(Command::Reproduce)
    } else if w == "kill"@ {
        Some(Command::Kill)
    } else if w == "feed"@ {
        Some(Command::Feed)
    } else if w == "count"@ {
        Some(Command::Count)
    } else if w == "help"@ {
        Some(Command::Help)
    } else if w == "exit"@ {
        Some(Command::Exit)
    } else {
        None
    }
}

/// The command named by `command_name`, or `None` for an invalid command.
pub fn handle_input(command_name: &str) -> (r: Option<Command>)
    ensures
        r == command_of_word(command_name@),
{
    if str_eq(command_name, "create") {
        Some(Command::Create)
    } else if str_eq(command_name, "delete") {
        Some(Command::Delete)
    } else if str_eq(command_name, "read") {
        Some(Command::Read)
    } else if str_eq(command_name, "spawn") {
        Some(Command::Spawn)
    } else if str_eq(command_name, "reproduce") {
        Some(Command::Reproduce)
    } else if str_eq(command_name, "kill") {
        Some(Command::Kill)
    } else if str_eq(command_name, "feed") {
        Some(Command::Feed)
    } else if str_eq(command_name, "count") {
        Some(Command::Count)
    } else if str_eq(command_name, "help") {
        Some(Command::Help)
    } else if str_eq(command_name, "exit") {
        Some(Command::Exit)
    } else {
        None
    }
}

/// The sex chosen by a typed `m` or `f`.
pub fn sex_from_input(input: &str) -> (r: Result<Sex, StoreError>)
    ensures
        input@ == "m"@ ==> r == Ok::<Sex, StoreError>(Sex::Male),
        input@ == "f"@ ==> r == Ok::<Sex, StoreError>(Sex::Female),
        input@ != "m"@ && input@ != "f"@ ==> r == Err::<Sex, StoreError>(StoreError::InvalidField),
{
    proof {
        reveal_strlit("m");
        reveal_strlit("f");
        assert("m"@[0] != "f"@[0]);
        assert("m"@ != "f"@);
    }
    if str_eq(input, "m") {
        Ok(Sex::Male)
    } else if str_eq(input, "f") {
        Ok(Sex::Female)
    } else {
        Err(StoreError::InvalidField)
    }
}

/// Whether a typed answer confirms a deletion: only `y` does.
pub fn deletion_confirmed(answer: &str) -> (r: bool)
    ensures
        r == (answer@ == "y"@),
{
    str_eq(answer, "y")
}

/// Species data from typed name, class word and hyphen-separated lists.
pub fn animal_data_from_inputs(
    animal_name: String,
    animal_class: &String,
    animal_predators: &str,
    animal_preys: &str,
) -> (r: Result<AnimalData, StoreError>)
    ensures
        class_of_tag(animal_class@) is None ==> r == Err::<AnimalData, StoreError>(
            StoreError::InvalidField,
        ),
        class_of_tag(animal_class@) matches Some(c) ==> r is Ok && r->Ok_0@.name == animal_name@
            && r->Ok_0@.class == c && r->Ok_0@.predators == split_hyphen(animal_predators@)
            && r->Ok_0@.preys == split_hyphen(animal_preys@),
{
    match animal_class.to_class() {
        Err(e) => Err(e),
        Ok(class) => Ok(
            AnimalData::new(
                animal_name,
                class,
                split_on_hyphen(animal_predators),
                split_on_hyphen(animal_preys),
            ),
        ),
    }
}

} // verus!
