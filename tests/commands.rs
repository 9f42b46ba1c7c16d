use animals_cli::animal_structs::{chameleon_data, snake_data, snake_female, snake_male, AnimalAlive, Sex};
use animals_cli::commands::{
    animal_alive, animal_data_registered, count_animal, create_animal, delete_animal, feed_animal,
    feed_animal_with, help, kill_animal, kill_animal_by, read_animal, reproduce_animal,
    reproduce_animal_as, spawn_animal,
};
use animals_cli::csv_files_creator::{create_test_animals_alive, create_test_animals_data};
use animals_cli::custom_writers_and_readers::{CsvTable, CustomReader, CustomWriter};
use animals_cli::store_error::StoreError;

fn stores() -> (CsvTable, CsvTable) {
    (create_test_animals_data(), create_test_animals_alive())
}

fn with_alive(animals: Vec<AnimalAlive>) -> CsvTable {
    let mut writer = CustomWriter::new(create_test_animals_alive());
    for a in animals {
        writer.write_animal_alive(a);
    }
    writer.into_table()
}

#[test]
fn create_then_duplicate() {
    let (mut data, _) = stores();
    assert_eq!(create_animal(&mut data, snake_data()), Ok("snake data added".to_string()));
    assert_eq!(create_animal(&mut data, snake_data()), Ok("snake already exists".to_string()));
    assert_eq!(data.rows.len(), 1);
    assert_eq!(animal_data_registered(&data, "snake"), Ok(true));
    assert_eq!(animal_data_registered(&data, "cow"), Ok(false));
}

#[test]
fn read_describes_species() {
    let (mut data, _) = stores();
    create_animal(&mut data, snake_data()).unwrap();
    assert_eq!(
        read_animal(&data, "snake".to_string()),
        Ok("Name: snake\nClass: reptile\nPredators: eagle-mongoose\nPreys: rat-squirrel".to_string())
    );
    assert_eq!(read_animal(&data, "cow".to_string()), Ok("Animal not found".to_string()));
}

#[test]
fn spawn_needs_registered_species() {
    let (mut data, mut alive) = stores();
    assert_eq!(
        spawn_animal(&data, &mut alive, "snake".to_string(), Sex::Male),
        Ok("snake does not exist".to_string())
    );
    assert!(alive.rows.is_empty());
    create_animal(&mut data, snake_data()).unwrap();
    assert_eq!(
        spawn_animal(&data, &mut alive, "snake".to_string(), Sex::Female),
        Ok("A snake has borned! It's a female".to_string())
    );
    assert_eq!(animal_alive(&alive, "snake"), Ok(true));
    assert_eq!(count_animal(&alive, "snake".to_string()), Ok("We have 1 snakes!".to_string()));
}

#[test]
fn count_message_uses_decimal() {
    let mut animals = Vec::new();
    for _ in 0..12 {
        animals.push(snake_female());
    }
    let alive = with_alive(animals);
    assert_eq!(count_animal(&alive, "snake".to_string()), Ok("We have 12 snakes!".to_string()));
    assert_eq!(count_animal(&alive, "cow".to_string()), Ok("We have 0 cows!".to_string()));
}

#[test]
fn reproduce_needs_both_sexes() {
    let (mut data, _) = stores();
    create_animal(&mut data, snake_data()).unwrap();
    let mut alive = create_test_animals_alive();
    assert_eq!(
        reproduce_animal_as(&data, &mut alive, "snake".to_string(), Sex::Male),
        Ok("snake is not even alive".to_string())
    );
    let mut alive = with_alive(vec![snake_female()]);
    assert_eq!(
        reproduce_animal_as(&data, &mut alive, "snake".to_string(), Sex::Male),
        Ok("snake does not have both sexes".to_string())
    );
    let mut alive = with_alive(vec![snake_female(), snake_male()]);
    assert_eq!(
        reproduce_animal_as(&data, &mut alive, "snake".to_string(), Sex::Male),
        Ok("A snake has borned! It's a male".to_string())
    );
    assert_eq!(alive.rows.len(), 3);
    let answer = reproduce_animal(&data, &mut alive, "snake".to_string()).unwrap();
    assert!(answer == "A snake has borned! It's a male" || answer == "A snake has borned! It's a female");
    assert_eq!(alive.rows.len(), 4);
}

#[test]
fn kill_names_a_predator() {
    let (mut data, _) = stores();
    create_animal(&mut data, snake_data()).unwrap();
    let mut alive = with_alive(vec![snake_female(), snake_male()]);
    assert_eq!(
        kill_animal_by(&data, &mut alive, "snake".to_string(), 1),
        Ok("snake was killed by a mongoose".to_string())
    );
    assert_eq!(CustomReader::new(&alive).count_animal("snake"), Ok(1));
    let answer = kill_animal(&data, &mut alive, "snake".to_string()).unwrap();
    assert!(answer == "snake was killed by a eagle" || answer == "snake was killed by a mongoose");
    assert_eq!(
        kill_animal_by(&data, &mut alive, "snake".to_string(), 0),
        Ok("snake is not even alive".to_string())
    );
    let mut orphans = with_alive(vec![AnimalAlive::born("cow", Sex::Male)]);
    assert_eq!(
        kill_animal_by(&data, &mut orphans, "cow".to_string(), 0),
        Ok("cow does not exist".to_string())
    );
    assert_eq!(orphans.rows.len(), 1);
}

#[test]
fn feed_names_a_prey() {
    let (mut data, _) = stores();
    create_animal(&mut data, chameleon_data()).unwrap();
    let alive = with_alive(vec![AnimalAlive::born("chameleon", Sex::Male)]);
    assert_eq!(
        feed_animal_with(&data, &alive, "chameleon".to_string(), 0),
        Ok("Mmm... That mantids was delicious".to_string())
    );
    assert_eq!(
        feed_animal_with(&data, &alive, "chameleon".to_string(), 1),
        Ok("Mmm... That crickets was delicious".to_string())
    );
    let answer = feed_animal(&data, &alive, "chameleon".to_string()).unwrap();
    assert!(answer == "Mmm... That mantids was delicious" || answer == "Mmm... That crickets was delicious");
    assert_eq!(
        feed_animal_with(&data, &alive, "snake".to_string(), 0),
        Ok("snake is not even alive".to_string())
    );
}

#[test]
fn delete_makes_species_extinct() {
    let (mut data, _) = stores();
    create_animal(&mut data, snake_data()).unwrap();
    create_animal(&mut data, chameleon_data()).unwrap();
    let mut alive = with_alive(vec![snake_female(), AnimalAlive::born("chameleon", Sex::Male), snake_male()]);
    assert_eq!(
        delete_animal(&mut data, &mut alive, "snake".to_string()),
        Ok("snake is now extinct!".to_string())
    );
    assert_eq!(animal_data_registered(&data, "snake"), Ok(false));
    assert_eq!(animal_data_registered(&data, "chameleon"), Ok(true));
    assert_eq!(CustomReader::new(&alive).count_animal("snake"), Ok(0));
    assert_eq!(CustomReader::new(&alive).count_animal("chameleon"), Ok(1));
}

#[test]
fn commands_report_store_errors() {
    let (mut data, _) = stores();
    data.rows.push(vec!["snake".to_string(), "dragon".to_string(), "".to_string(), "".to_string()]);
    assert_eq!(create_animal(&mut data, snake_data()), Err(StoreError::InvalidField));
    assert_eq!(data.rows.len(), 1);
    let mut bad_alive = CsvTable::with_header(vec!["who".to_string(), "sex".to_string()]);
    assert_eq!(
        delete_animal(&mut data, &mut bad_alive, "snake".to_string()),
        Err(StoreError::MissingNameColumn)
    );
    assert!(data.rows.is_empty());
}

#[test]
fn help_lists_commands() {
    let text = help();
    assert!(text.starts_with("'create animal_name'"));
    assert!(text.ends_with("'help': Show this help"));
    assert_eq!(text.lines().count(), 9);
}
