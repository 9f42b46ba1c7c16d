//! What each command of the simulation does to the two store files, and the
//! message it answers with. Every command reads the files as they stand and
//! keeps nothing between calls.
use vstd::prelude::*;
use crate::animal_alive_csv::{
    both_sexes, counted, encode_alive, find_alive, kill_all_animals_alive, kill_one_animal_alive,
    AnimalAliveReader,
};
use crate::animal_csv_shared_functions::deletion_outcome;
use crate::animal_data_csv::{delete_animal_data, encode_data, find_data, AnimalDataReader};
use crate::animal_structs::{class_tag, sex_tag, AnimalAlive, AnimalData, AnimalDataView, Sex};
use crate::custom_writers_and_readers::{presence, CsvTable, CustomReader, CustomWriter, TableView};
use crate::store_error::StoreError;
use crate::text::{decimal, decimal_string, join_hyphen};

verus! {

/// A command's answer, as characters.
pub open spec fn text_result(r: Result<String, StoreError>) -> Result<Seq<char>, StoreError> {
    match r {
        Ok(s) => Ok(s@),
        Err(e) => Err(e),
    }
}

/// The file after one more row.
pub open spec fn appended(t: TableView, row: Seq<Seq<char>>) -> TableView {
    TableView { header: t.header, rows: t.rows.push(row) }
}

/// The name at position `choice`, or nothing when the list has no such position.
pub open spec fn pick(names: Seq<Seq<char>>, choice: nat) -> Seq<char> {
    if choice < names.len() {
        names[choice as int]
    } else {
        Seq::empty()
    }
}

/// A choice among the predators (`of_predators`) or the preys of the species
/// that a lookup found: a position in the list, any when the list is empty.
pub open spec fn choice_fits(lookup: Result<Option<AnimalDataView>, StoreError>, choice: nat, of_predators: bool) -> bool {
    match lookup {
        Ok(Some(d)) => {
            let names = if of_predators {
                d.predators
            } else {
                d.preys
            };
            names.len() == 0 || choice < names.len()
        },
        _ => true,
    }
}

pub open spec fn create_outcome(data: TableView, a: AnimalDataView) -> (
    Result<Seq<char>, StoreError>,
    TableView,
) {
    match find_data(data.rows, a.name) {
        Err(e) => (Err(e), data),
        Ok(Some(_)) => (Ok(a.name + " already exists"@), data),
        Ok(None) => (Ok(a.name + " data added"@), appended(data, encode_data(a))),
    }
}

pub open spec fn delete_outcome(data: TableView, alive: TableView, name: Seq<char>) -> (
    Result<Seq<char>, StoreError>,
    TableView,
    TableView,
) {
    match deletion_outcome(data, name, false) {
        Err(e) => (Err(e), data, alive),
        Ok(d) => match deletion_outcome(alive, name, true) {
            Err(e) => (Err(e), d, alive),
            Ok(l) => (Ok(name + " is now extinct!"@), d, l),
        },
    }
}

pub open spec fn read_outcome(data: TableView, name: Seq<char>) -> Result<Seq<char>, StoreError> {
    match find_data(data.rows, name) {
        Err(e) => Err(e),
        Ok(None) => Ok("Animal not found"@),
        Ok(Some(d)) => Ok(
            "Name: "@ + d.name + "\nClass: "@ + class_tag(d.class) + "\nPredators: "@ + join_hyphen(
                d.predators,
            ) + "\nPreys: "@ + join_hyphen(d.preys),
        ),
    }
}

pub open spec fn spawn_outcome(data: TableView, alive: TableView, name: Seq<char>, sex: Sex) -> (
    Result<Seq<char>, StoreError>,
    TableView,
) {
    match find_data(data.rows, name) {
        Err(e) => (Err(e), alive),
        Ok(None) => (Ok(name + " does not exist"@), alive),
        Ok(Some(_)) => (
            Ok("A "@ + name + " has borned! It's a "@ + sex_tag(sex)),
            appended(alive, encode_alive(crate::animal_structs::AnimalAliveView { name, sex })),
        ),
    }
}

pub open spec fn reproduce_outcome(data: TableView, alive: TableView, name: Seq<char>, sex: Sex) -> (
    Result<Seq<char>, StoreError>,
    TableView,
) {
    match find_alive(alive.rows, name) {
        Err(e) => (Err(e), alive),
        Ok(None) => (Ok(name + " is not even alive"@), alive),
        Ok(Some(_)) => match both_sexes(alive.rows, name) {
            Err(e) => (Err(e), alive),
            Ok(true) => spawn_outcome(data, alive, name, sex),
            Ok(false) => (Ok(name + " does not have both sexes"@), alive),
        },
    }
}

pub open spec fn kill_outcome(data: TableView, alive: TableView, name: Seq<char>, choice: nat) -> (
    Result<Seq<char>, StoreError>,
    TableView,
) {
    match find_alive(alive.rows, name) {
        Err(e) => (Err(e), alive),
        Ok(None) => (Ok(name + " is not even alive"@), alive),
        Ok(Some(_)) => match find_data(data.rows, name) {
            Err(e) => (Err(e), alive),
            Ok(None) => (Ok(name + " does not exist"@), alive),
            Ok(Some(d)) => match deletion_outcome(alive, name, false) {
                Err(e) => (Err(e), alive),
                Ok(t) => (Ok(name + " was killed by a "@ + pick(d.predators, choice)), t),
            },
        },
    }
}

pub open spec fn feed_outcome(data: TableView, alive: TableView, name: Seq<char>, choice: nat) -> Result<
    Seq<char>,
    StoreError,
> {
    match find_alive(alive.rows, name) {
        Err(e) => Err(e),
        Ok(None) => Ok(name + " is not even alive"@),
        Ok(Some(_)) => match find_data(data.rows, name) {
            Err(e) => Err(e),
            Ok(None) => Ok("Animal not found"@),
            Ok(Some(d)) => Ok("Mmm... That "@ + pick(d.preys, choice) + " was delicious"@),
        },
    }
}

pub open spec fn count_message(name: Seq<char>, count: nat) -> Seq<char> {
    "We have "@ + decimal(count) + " "@ + name + "s!"@
}

/// Relies on rand::thread_rng and Rng::gen_range: a number below `bound`
/// (which must be positive, else gen_range panics).
#[verifier::external_body]
pub(crate) fn random_below(bound: usize) -> (r: usize)
    requires
        bound > 0,
    ensures
        r < bound,
{
    rand::Rng::gen_range(&mut rand::thread_rng(), 0..bound)
}

/// Relies on rand::seq::SliceRandom::choose over rand::thread_rng: one of
/// the items, or `None` for an empty list.
#[verifier::external_body]
fn choose_one<T: Copy>(items: &Vec<T>) -> (r: Option<T>)
    ensures
        items@.len() == 0 <==> r is None,
        r matches Some(x) ==> items@.contains(x),
{
    rand::seq::SliceRandom::choose(items.as_slice(), &mut rand::thread_rng()).copied()
}

/// The positions of a list of `n` items.
fn positions(n: usize) -> (r: Vec<usize>)
    ensures
        r@.len() == n,
        forall|i: int| 0 <= i < n ==> #[trigger] r@[i] == i,
{
    let mut v: Vec<usize> = Vec::new();
    let mut i: usize = 0;
    while i < n
        invariant
            i <= n,
            v@.len() == i,
            forall|j: int| 0 <= j < i ==> #[trigger] v@[j] == j,
        decreases n - i,
    {
        v.push(i);
        i = i + 1;
    }
    v
}

/// A random position among the predators (`of_predators`) or preys of the
/// species stored under `animal_name`; 0 when there is none to choose.
fn random_choice(data: &CsvTable, animal_name: &str, of_predators: bool) -> (r: usize)
    ensures
        choice_fits(find_data(data@.rows, animal_name@), r as nat, of_predators),
{
    let mut reader = CustomReader::new(data);
    let n = match reader.read_animal_data(animal_name) {
        Ok(Some(d)) => if of_predators {
            d.predators.len()
        } else {
            d.preys.len()
        },
        _ => 0,
    };
    let all = positions(n);
    match choose_one(&all) {
        Some(i) => i,
        None => 0,
    }
}

fn text_then(a: &str, b: &str) -> (r: String)
    ensures
        r@ == a@ + b@,
{
    let mut s = String::from_str(a);
    s.append(b);
    s
}

/// Whether species data is stored under `animal_name`.
pub fn animal_data_registered(data: &CsvTable, animal_name: &str) -> (r: Result<bool, StoreError>)
    ensures
        r == presence(find_data(data@.rows, animal_name@)),
{
    let mut reader = CustomReader::new(data);
    reader.animal_data_in_file(animal_name)
}

/// Whether a living individual is stored under `animal_name`.
pub fn animal_alive(alive: &CsvTable, animal_name: &str) -> (r: Result<bool, StoreError>)
    ensures
        r == presence(find_alive(alive@.rows, animal_name@)),
{
    let mut reader = CustomReader::new(alive);
    reader.animal_alive_in_file(animal_name)
}

fn append_data(data: &mut CsvTable, animal: &AnimalData)
    ensures
        final(data)@ == appended(old(data)@, encode_data(animal@)),
{
    let mut taken = CsvTable::with_header(Vec::new());
    std::mem::swap(data, &mut taken);
    let mut writer = CustomWriter::new(taken);
    writer.write_animal_data(animal);
    *data = writer.into_table();
}

fn append_alive(alive: &mut CsvTable, animal: AnimalAlive)
    ensures
        final(alive)@ == appended(old(alive)@, encode_alive(animal@)),
{
    let mut taken = CsvTable::with_header(Vec::new());
    std::mem::swap(alive, &mut taken);
    let mut writer = CustomWriter::new(taken);
    writer.write_animal_alive(animal);
    *alive = writer.into_table();
}

/// Stores new species data unless its name is already registered.
pub fn create_animal(data: &mut CsvTable, animal: AnimalData) -> (r: Result<String, StoreError>)
    ensures
        (text_result(r), final(data)@) == create_outcome(old(data)@, animal@),
{
    let animal_name = animal.name();
    match animal_data_registered(data, animal_name.as_str()) {
        Err(e) => Err(e),
        Ok(true) => Ok(text_then(animal_name.as_str(), " already exists")),
        Ok(false) => {
            append_data(data, &animal);
            Ok(text_then(animal_name.as_str(), " data added"))
        },
    }
}

/// Deletes a species: its data row, then every living individual of it.
pub fn delete_animal(data: &mut CsvTable, alive: &mut CsvTable, animal_name: String) -> (r: Result<
    String,
    StoreError,
>)
    ensures
        (text_result(r), final(data)@, final(alive)@) == delete_outcome(
            old(data)@,
            old(alive)@,
            animal_name@,
        ),
{
    match delete_animal_data(animal_name.as_str(), data) {
        Err(e) => return Err(e),
        Ok(()) => {},
    }
    match kill_all_animals_alive(animal_name.as_str(), alive) {
        Err(e) => return Err(e),
        Ok(()) => {},
    }
    Ok(text_then(animal_name.as_str(), " is now extinct!"))
}

/// Describes the species stored under `animal_name`.
pub fn read_animal(data: &CsvTable, animal_name: String) -> (r: Result<String, StoreError>)
    ensures
        text_result(r) == read_outcome(data@, animal_name@),
{
    let mut reader = CustomReader::new(data);
    match reader.read_animal_data(animal_name.as_str()) {
        Err(e) => Err(e),
        Ok(None) => Ok(String::from_str("Animal not found")),
        Ok(Some(animal_data)) => {
            let mut s = text_then("Name: ", animal_data.name.as_str());
            s.append("\nClass: ");
            s.append(animal_data.class_str().as_str());
            s.append("\nPredators: ");
            s.append(animal_data.predators_str().as_str());
            s.append("\nPreys: ");
            s.append(animal_data.preys_str().as_str());
            Ok(s)
        },
    }
}

/// Adds a living individual of a registered species.
pub fn spawn_animal(data: &CsvTable, alive: &mut CsvTable, animal_name: String, animal_sex: Sex) -> (r:
    Result<String, StoreError>)
    ensures
        (text_result(r), final(alive)@) == spawn_outcome(
            data@,
            old(alive)@,
            animal_name@,
            animal_sex,
        ),
{
    match animal_data_registered(data, animal_name.as_str()) {
        Err(e) => Err(e),
        Ok(false) => Ok(text_then(animal_name.as_str(), " does not exist")),
        Ok(true) => {
            let animal = AnimalAlive::born(animal_name.as_str(), animal_sex);
            let sex_word = animal.sex_str();
            append_alive(alive, animal);
            let mut s = text_then("A ", animal_name.as_str());
            s.append(" has borned! It's a ");
            s.append(sex_word.as_str());
            Ok(s)
        },
    }
}

/// Reproduces a living species that has both sexes, giving the newborn
/// the sex `newborn_sex`.
pub fn reproduce_animal_as(
    data: &CsvTable,
    alive: &mut CsvTable,
    animal_name: String,
    newborn_sex: Sex,
) -> (r: Result<String, StoreError>)
    ensures
        (text_result(r), final(alive)@) == reproduce_outcome(
            data@,
            old(alive)@,
            animal_name@,
            newborn_sex,
        ),
{
    match animal_alive(alive, animal_name.as_str()) {
        Err(e) => return Err(e),
        Ok(false) => return Ok(text_then(animal_name.as_str(), " is not even alive")),
        Ok(true) => {},
    }
    let mut reader = CustomReader::new(alive);
    match reader.has_both_sexes(animal_name.as_str()) {
        Err(e) => Err(e),
        Ok(false) => Ok(text_then(animal_name.as_str(), " does not have both sexes")),
        Ok(true) => spawn_animal(data, alive, animal_name, newborn_sex),
    }
}

/// Reproduces a living species that has both sexes; the newborn's sex is
/// drawn at random.
pub fn reproduce_animal(data: &CsvTable, alive: &mut CsvTable, animal_name: String) -> (r: Result<
    String,
    StoreError,
>)
    ensures
        exists|sex: Sex|
            (text_result(r), final(alive)@) == reproduce_outcome(
                data@,
                old(alive)@,
                animal_name@,
                sex,
            ),
{
    let sexes = vec![Sex::Male, Sex::Female];
    let sex = match choose_one(&sexes) {
        Some(s) => s,
        None => Sex::Male,
    };
    reproduce_animal_as(data, alive, animal_name, sex)
}

fn picked_name(names: &Vec<String>, choice: usize) -> (r: String)
    ensures
        r@ == pick(names.deep_view(), choice as nat),
{
    if choice < names.len() {
        names[choice].clone()
    } else {
        String::new()
    }
}

/// Kills one living individual of a species, naming the predator at
/// `choice` among the species' predators.
pub fn kill_animal_by(data: &CsvTable, alive: &mut CsvTable, animal_name: String, choice: usize) -> (r:
    Result<String, StoreError>)
    ensures
        (text_result(r), final(alive)@) == kill_outcome(
            data@,
            old(alive)@,
            animal_name@,
            choice as nat,
        ),
{
    match animal_alive(alive, animal_name.as_str()) {
        Err(e) => return Err(e),
        Ok(false) => return Ok(text_then(animal_name.as_str(), " is not even alive")),
        Ok(true) => {},
    }
    let mut reader = CustomReader::new(data);
    match reader.read_animal_data(animal_name.as_str()) {
        Err(e) => Err(e),
        Ok(None) => Ok(text_then(animal_name.as_str(), " does not exist")),
        Ok(Some(animal_data)) => {
            let predator = picked_name(&animal_data.predators, choice);
            match kill_one_animal_alive(animal_name.as_str(), alive) {
                Err(e) => Err(e),
                Ok(()) => {
                    let mut s = text_then(animal_name.as_str(), " was killed by a ");
                    s.append(predator.as_str());
                    Ok(s)
                },
            }
        },
    }
}

/// Kills one living individual of a species by a predator drawn at random.
pub fn kill_animal(data: &CsvTable, alive: &mut CsvTable, animal_name: String) -> (r: Result<
    String,
    StoreError,
>)
    ensures
        exists|choice: nat|
            choice_fits(find_data(data@.rows, animal_name@), choice, true) && (
            text_result(r),
            final(alive)@,
        ) == kill_outcome(
                data@,
                old(alive)@,
                animal_name@,
                choice,
            ),
{
    let choice = random_choice(data, animal_name.as_str(), true);
    kill_animal_by(data, alive, animal_name, choice)
}

/// Feeds a living species the prey at `choice` among its preys.
pub fn feed_animal_with(data: &CsvTable, alive: &CsvTable, animal_name: String, choice: usize) -> (r:
    Result<String, StoreError>)
    ensures
        text_result(r) == feed_outcome(data@, alive@, animal_name@, choice as nat),
{
    match animal_alive(alive, animal_name.as_str()) {
        Err(e) => return Err(e),
        Ok(false) => return Ok(text_then(animal_name.as_str(), " is not even alive")),
        Ok(true) => {},
    }
    let mut reader = CustomReader::new(data);
    match reader.read_animal_data(animal_name.as_str()) {
        Err(e) => Err(e),
        Ok(None) => Ok(String::from_str("Animal not found")),
        Ok(Some(animal_data)) => {
            let prey = picked_name(&animal_data.preys, choice);
            let mut s = text_then("Mmm... That ", prey.as_str());
            s.append(" was delicious");
            Ok(s)
        },
    }
}

/// Feeds a living species a prey drawn at random.
pub fn feed_animal(data: &CsvTable, alive: &CsvTable, animal_name: String) -> (r: Result<
    String,
    StoreError,
>)
    ensures
        exists|choice: nat|
            choice_fits(find_data(data@.rows, animal_name@), choice, false) && text_result(r)
                == feed_outcome(data@, alive@, animal_name@, choice),
{
    let choice = random_choice(data, animal_name.as_str(), false);
    feed_animal_with(data, alive, animal_name, choice)
}

/// Reports how many living individuals a species has.
pub fn count_animal(alive: &CsvTable, animal_name: String) -> (r: Result<String, StoreError>)
    ensures
        text_result(r) == match counted(alive@.rows, animal_name@, false) {
            Ok(n) => Ok::<Seq<char>, StoreError>(count_message(animal_name@, n)),
            Err(e) => Err(e),
        },
{
    let mut reader = CustomReader::new(alive);
    let count = match AnimalAliveReader::count_animal(&mut reader, animal_name.as_str()) {
        Ok(n) => n,
        Err(e) => return Err(e),
    };
    let mut s = text_then("We have ", decimal_string(count).as_str());
    s.append(" ");
    s.append(animal_name.as_str());
    s.append("s!");
    Ok(s)
}

/// The list of commands, one per line.
pub fn help() -> (r: String)
    ensures
        r@ == HELP_TEXT@,
{
    String::from_str(HELP_TEXT)
}

pub const HELP_TEXT: &'static str = "'create animal_name': Create an animal, specifying class, preys and predators
'delete animal_name': Delete an animal data
'read animal_name': Read animal data
'spawn animal_name': Spawn animal of chosen sex
'reproduce animal_name': Reproduce an animal alive
'kill animal_name': Kill an animal alive
'feed animal_name': Feed an animal alive
'count animal_name': Count the number of animals alive
'help': Show this help";

} // verus!
