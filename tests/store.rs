use animals_cli::animal_alive_csv::{kill_all_animals_alive, kill_one_animal_alive, AnimalAliveReader};
use animals_cli::animal_csv_shared_functions::{
    delete_all_animals_for_path, delete_animal_for_path, delete_one_animal_for_path,
};
use animals_cli::animal_data_csv::{delete_animal_data, AnimalDataReader};
use animals_cli::animal_structs::{
    chameleon_data, chameleon_male, snake_data, snake_female, snake_male, AnimalAlive, AnimalData,
    Class, Sex,
};
use animals_cli::csv_files_creator::{
    create_animals_alive_if_not_exists, create_animals_data_if_not_exists,
    create_test_animals_alive, create_test_animals_data,
};
use animals_cli::custom_writers_and_readers::{CsvTable, CustomReader, CustomWriter};
use animals_cli::store_error::StoreError;
use animals_cli::temp_file_handler::temp_dir_path_from_path;

fn alive_table(animals: Vec<AnimalAlive>) -> CsvTable {
    let mut writer = CustomWriter::new(create_test_animals_alive());
    for a in animals {
        writer.write_animal_alive(a);
    }
    writer.into_table()
}

fn data_table(animals: Vec<AnimalData>) -> CsvTable {
    let mut writer = CustomWriter::new(create_test_animals_data());
    for a in animals.iter() {
        writer.write_animal_data(a);
    }
    writer.into_table()
}

fn through_bytes(t: &CsvTable) -> CsvTable {
    CsvTable::from_csv_bytes(&t.to_csv_bytes().unwrap()).unwrap()
}

#[test]
fn test_read_animal_alive() {
    let table = through_bytes(&alive_table(vec![snake_female(), chameleon_male()]));
    let mut reader = CustomReader::new(&table);

    assert!(reader.read_animal_alive("snake").unwrap().is_some());
    assert!(reader.read_animal_alive("rabbit").unwrap().is_none());
    assert!(reader.read_animal_alive("cow").unwrap().is_none());
    assert!(reader.read_animal_alive("chameleon").unwrap().is_some());
}

#[test]
fn animal_alive_csv_test_has_both_sexes() {
    let table = through_bytes(&alive_table(vec![
        snake_female(),
        snake_male(),
        chameleon_male(),
        chameleon_male(),
    ]));
    let mut reader = CustomReader::new(&table);

    assert!(reader.has_both_sexes("snake").unwrap());
    assert!(!reader.has_both_sexes("chameleon").unwrap());
}

#[test]
fn test_delete_all_animals() {
    let mut table = alive_table(vec![
        snake_female(),
        chameleon_male(),
        chameleon_male(),
        snake_female(),
    ]);
    let mut reader = CustomReader::new(&table);
    let count_snake = reader.count_animal("snake").unwrap();
    assert_eq!(count_snake, 2);
    let count_chameleon = reader.count_animal("chameleon").unwrap();
    assert_eq!(count_chameleon, 2);

    delete_all_animals_for_path("snake", &mut table).unwrap();
    let mut reader = CustomReader::new(&table);

    let count_snake = reader.count_animal("snake").unwrap();
    assert_eq!(count_snake, 0);
    let count_chameleon = reader.count_animal("chameleon").unwrap();
    assert_eq!(count_chameleon, 2);
}

#[test]
fn test_kill_one_animal_alive() {
    let mut table = alive_table(vec![
        snake_female(),
        chameleon_male(),
        chameleon_male(),
        snake_female(),
    ]);
    let mut count = CustomReader::new(&table).count_animal("snake").unwrap();
    assert_eq!(count, 2);

    delete_one_animal_for_path("snake", &mut table).unwrap();
    count = CustomReader::new(&table).count_animal("snake").unwrap();
    assert_eq!(count, 1);

    delete_one_animal_for_path("snake", &mut table).unwrap();
    count = CustomReader::new(&table).count_animal("snake").unwrap();
    assert_eq!(count, 0);
}

#[test]
fn test_delete_animal_data() {
    let mut table = data_table(vec![snake_data(), chameleon_data(), chameleon_data(), snake_data()]);
    let mut count = CustomReader::new(&table).count_animal("snake").unwrap();
    assert_eq!(count, 2);

    delete_one_animal_for_path("snake", &mut table).unwrap();
    count = CustomReader::new(&table).count_animal("snake").unwrap();
    assert_eq!(count, 1);

    delete_one_animal_for_path("snake", &mut table).unwrap();
    count = CustomReader::new(&table).count_animal("snake").unwrap();
    assert_eq!(count, 0);
}

#[test]
fn animal_data_csv_test_read_animal_data() {
    let table = through_bytes(&data_table(vec![snake_data(), chameleon_data()]));
    let mut reader = CustomReader::new(&table);

    assert!(reader.read_animal_data("snake").unwrap().is_some());
    assert!(reader.read_animal_data("cow").unwrap().is_none());
    assert!(reader.read_animal_data("rabbit").unwrap().is_none());
    assert!(reader.read_animal_data("chameleon").unwrap().is_some());
}

#[test]
fn animals_csv_test_read_animal_data() {
    let table = through_bytes(&data_table(vec![
        AnimalData::new(
            "snake".to_string(),
            Class::Reptile,
            vec![String::from("eagle"), String::from("mongoose")],
            vec![String::from("rat"), String::from("squirrel")],
        ),
        AnimalData::new(
            "chameleon".to_string(),
            Class::Reptile,
            vec![String::from("bird"), String::from("snake")],
            vec![String::from("mantids"), String::from("crickets")],
        ),
    ]));
    let mut reader = CustomReader::new(&table);
    assert!(reader.read_animal_data("snake").unwrap().is_some());
    assert!(!reader.read_animal_data("cow").unwrap().is_some());
    assert!(!reader.read_animal_data("rabbit").unwrap().is_some());
    assert!(reader.read_animal_data("chameleon").unwrap().is_some());
}

#[test]
fn animals_csv_test_has_both_sexes() {
    let table = through_bytes(&alive_table(vec![
        AnimalAlive::born("snake", Sex::Female),
        AnimalAlive::born("snake", Sex::Male),
        AnimalAlive::born("chameleon", Sex::Male),
        AnimalAlive::born("chameleon", Sex::Male),
    ]));
    let mut reader = CustomReader::new(&table);
    assert!(reader.has_both_sexes("snake").unwrap());
    assert!(!reader.has_both_sexes("chameleon").unwrap());
}

#[test]
fn test_read_animal() {
    let table = through_bytes(&alive_table(vec![
        AnimalAlive::born("snake", Sex::Female),
        AnimalAlive::born("chameleon", Sex::Male),
    ]));
    let mut reader = CustomReader::new(&table);
    assert!(reader.read_animal_alive("snake").unwrap().is_some());
    assert!(!reader.read_animal_alive("cow").unwrap().is_some());
    assert!(!reader.read_animal_alive("rabbit").unwrap().is_some());
    assert!(reader.read_animal_alive("chameleon").unwrap().is_some());
}

#[test]
fn test_count_animal() {
    let table = through_bytes(&alive_table(vec![
        AnimalAlive::born("snake", Sex::Female),
        AnimalAlive::born("chameleon", Sex::Female),
        AnimalAlive::born("chameleon", Sex::Female),
        AnimalAlive::born("snake", Sex::Female),
    ]));
    let mut reader = CustomReader::new(&table);
    let count = reader.count_animal("snake").unwrap();
    assert_eq!(count, 2);
}

#[test]
fn test_create_csv_if_not_exists() {
    let table = create_animals_alive_if_not_exists(false).unwrap();
    let back = through_bytes(&table);
    assert_eq!(back.header, vec!["name".to_string(), "sex".to_string()]);
    assert!(back.rows.is_empty());
    assert!(create_animals_alive_if_not_exists(true).is_none());
    assert!(create_animals_data_if_not_exists(true).is_none());
    let data = create_animals_data_if_not_exists(false).unwrap();
    assert_eq!(data.header, vec!["name", "class", "predators", "preys"]);
}

#[test]
fn csv_files_creator_test_create_csv_for_testing() {
    let table = CsvTable::with_header(vec!["header1".to_string(), "header2".to_string()]);
    let bytes = table.to_csv_bytes().unwrap();
    assert_eq!(bytes, b"header1,header2\n".to_vec());
    let back = CsvTable::from_csv_bytes(&bytes).unwrap();
    assert_eq!(back.header, vec!["header1".to_string(), "header2".to_string()]);
    assert!(back.rows.is_empty());
}

#[test]
fn animals_csv_test_create_csv_for_testing() {
    let back = through_bytes(&create_test_animals_data());
    assert_eq!(back.header, vec!["name", "class", "predators", "preys"]);
    let back = through_bytes(&create_test_animals_alive());
    assert_eq!(back.header, vec!["name", "sex"]);
}

// Store laws on concrete values.

#[test]
fn round_trip_of_both_entity_kinds() {
    let a = snake_male();
    assert_eq!(AnimalAlive::from_csv(&a.to_csv()), Ok(snake_male()));
    let d = snake_data();
    assert_eq!(AnimalData::from_csv(&d.to_csv()), Ok(snake_data()));
    let empty_lists = AnimalData::new("slug".to_string(), Class::Arthropod, vec![], vec![]);
    let row = empty_lists.to_csv();
    assert_eq!(row[2], "");
    assert_eq!(AnimalData::from_csv(&row).unwrap(), empty_lists);
    assert_eq!(d.to_data_csv(), d.to_csv());
    assert_eq!(a.to_alive_csv(), a.to_csv());
}

#[test]
fn append_then_find_in_empty_store() {
    let table = alive_table(vec![snake_male()]);
    let mut reader = CustomReader::new(&table);
    assert_eq!(reader.read_animal_alive("snake"), Ok(Some(snake_male())));
    let table = data_table(vec![chameleon_data()]);
    let mut reader = CustomReader::new(&table);
    assert_eq!(reader.read_animal_data("chameleon"), Ok(Some(chameleon_data())));
}

#[test]
fn count_accuracy_after_four_appends() {
    let table = alive_table(vec![snake_female(), snake_male(), chameleon_male(), chameleon_male()]);
    let mut reader = CustomReader::new(&table);
    assert_eq!(reader.count_animal("snake").unwrap(), 2);
    assert_eq!(reader.count_animal("chameleon").unwrap(), 2);
    assert_eq!(reader.count_animal("cow").unwrap(), 0);
}

#[test]
fn delete_one_twice_then_no_op() {
    let mut table = alive_table(vec![snake_female(), snake_male()]);
    kill_one_animal_alive("snake", &mut table).unwrap();
    assert_eq!(CustomReader::new(&table).count_animal("snake").unwrap(), 1);
    kill_one_animal_alive("snake", &mut table).unwrap();
    assert_eq!(CustomReader::new(&table).count_animal("snake").unwrap(), 0);
    assert_eq!(kill_one_animal_alive("snake", &mut table), Ok(()));
    assert_eq!(CustomReader::new(&table).count_animal("snake").unwrap(), 0);
    assert_eq!(table.header, vec!["name", "sex"]);
}

#[test]
fn delete_one_keeps_later_matches_in_order() {
    let mut table = alive_table(vec![chameleon_male(), snake_female(), snake_male()]);
    kill_one_animal_alive("snake", &mut table).unwrap();
    assert_eq!(table.rows, vec![vec!["chameleon", "male"], vec!["snake", "male"]]);
}

#[test]
fn delete_all_leaves_others() {
    let mut table = alive_table(vec![snake_female(), chameleon_male(), chameleon_male(), snake_male()]);
    kill_all_animals_alive("snake", &mut table).unwrap();
    let mut reader = CustomReader::new(&table);
    assert_eq!(reader.count_animal("snake").unwrap(), 0);
    assert_eq!(reader.count_animal("chameleon").unwrap(), 2);
}

#[test]
fn delete_species_data_row() {
    let mut table = data_table(vec![snake_data(), chameleon_data()]);
    delete_animal_data("snake", &mut table).unwrap();
    let mut reader = CustomReader::new(&table);
    assert_eq!(reader.read_animal_data("snake"), Ok(None));
    assert_eq!(reader.read_animal_data("chameleon"), Ok(Some(chameleon_data())));
}

#[test]
fn queries_repeat_identically() {
    let table = alive_table(vec![snake_female(), chameleon_male(), snake_male()]);
    let mut reader = CustomReader::new(&table);
    let first = reader.read_animal_alive("snake");
    assert_eq!(reader.read_animal_alive("snake"), first);
    let c = reader.count_animal("snake");
    assert_eq!(reader.count_animal("snake"), c);
    assert_eq!(c, Ok(2));
    let both = reader.has_both_sexes("snake");
    assert_eq!(reader.has_both_sexes("snake"), both);
}

#[test]
fn failed_deletion_leaves_file_unchanged() {
    let mut table = CsvTable::with_header(vec!["species".to_string(), "sex".to_string()]);
    table.rows.push(vec!["snake".to_string(), "male".to_string()]);
    let before = table.rows.clone();
    assert_eq!(delete_all_animals_for_path("snake", &mut table), Err(StoreError::MissingNameColumn));
    assert_eq!(table.rows, before);
    assert_eq!(table.header, vec!["species", "sex"]);
}

#[test]
fn rewrite_builds_a_new_table() {
    let table = alive_table(vec![snake_female(), chameleon_male(), snake_male()]);
    let one = delete_animal_for_path(&table, "snake", false).unwrap();
    assert_eq!(one.rows, vec![vec!["chameleon", "male"], vec!["snake", "male"]]);
    let all = delete_animal_for_path(&table, "snake", true).unwrap();
    assert_eq!(all.rows, vec![vec!["chameleon", "male"]]);
    assert_eq!(table.rows.len(), 3);
}

#[test]
fn key_column_found_anywhere_in_header() {
    let mut table = CsvTable::with_header(vec!["sex".to_string(), "name".to_string()]);
    table.rows.push(vec!["male".to_string(), "snake".to_string()]);
    table.rows.push(vec!["female".to_string(), "cow".to_string()]);
    delete_one_animal_for_path("snake", &mut table).unwrap();
    assert_eq!(table.rows, vec![vec!["female", "cow"]]);
}

#[test]
fn invalid_fields_abort_scans() {
    let mut table = create_test_animals_alive();
    table.rows.push(vec!["snake".to_string(), "male".to_string()]);
    table.rows.push(vec!["snake".to_string(), "unknown".to_string()]);
    table.rows.push(vec!["snake".to_string(), "female".to_string()]);
    let mut reader = CustomReader::new(&table);
    assert_eq!(reader.has_both_sexes("snake"), Err(StoreError::InvalidField));
    assert_eq!(reader.read_animal_alive("snake"), Ok(Some(snake_male())));
    assert_eq!(reader.count_animal("snake"), Err(StoreError::InvalidField));
    assert_eq!(reader.count_animal("cow"), Err(StoreError::InvalidField));

    let mut data = create_test_animals_data();
    data.rows.push(vec!["snake".to_string(), "dragon".to_string(), "".to_string(), "".to_string()]);
    let mut reader = CustomReader::new(&data);
    assert_eq!(reader.read_animal_data("snake"), Err(StoreError::InvalidField));
    assert_eq!(reader.read_animal_data("cow"), Err(StoreError::InvalidField));
    assert_eq!(AnimalAlive::from_csv(&["snake".to_string()]), Err(StoreError::InvalidField));
}

#[test]
fn corrupt_row_before_match_aborts_lookup() {
    let mut table = create_test_animals_alive();
    table.rows.push(vec!["cow".to_string(), "xyz".to_string()]);
    table.rows.push(vec!["snake".to_string(), "male".to_string()]);
    let mut reader = CustomReader::new(&table);
    assert_eq!(reader.read_animal_alive("snake"), Err(StoreError::InvalidField));
    assert_eq!(reader.animal_alive_in_file("snake"), Err(StoreError::InvalidField));
    assert_eq!(reader.has_both_sexes("snake"), Err(StoreError::InvalidField));
}

#[test]
fn data_rows_counted_under_data_header() {
    let table = data_table(vec![snake_data(), chameleon_data(), snake_data()]);
    let mut reader = CustomReader::new(&table);
    assert_eq!(reader.count_animal("snake"), Ok(2));
    assert_eq!(AnimalAliveReader::count_animal(&mut reader, "snake"), Err(StoreError::InvalidField));
}

#[test]
fn both_sexes_stops_before_later_bad_row() {
    let mut table = create_test_animals_alive();
    table.rows.push(vec!["snake".to_string(), "male".to_string()]);
    table.rows.push(vec!["snake".to_string(), "female".to_string()]);
    table.rows.push(vec!["snake".to_string(), "unknown".to_string()]);
    let mut reader = CustomReader::new(&table);
    assert_eq!(reader.has_both_sexes("snake"), Ok(true));
}

#[test]
fn csv_text_quotes_and_parses() {
    let mut table = create_test_animals_data();
    table.rows.push(vec!["a,b".to_string(), "fish".to_string(), "x\"y".to_string(), "".to_string()]);
    let bytes = table.to_csv_bytes().unwrap();
    assert_eq!(bytes, b"name,class,predators,preys\n\"a,b\",fish,\"x\"\"y\",\n".to_vec());
    let back = CsvTable::from_csv_bytes(&bytes).unwrap();
    assert_eq!(back.rows, table.rows);
    assert_eq!(CsvTable::from_csv_bytes(b"name,sex\nsnake\n").unwrap_err(), StoreError::Io);
    assert_eq!(CsvTable::from_csv_bytes(&[0xff, 0xfe, b'\n']).unwrap_err(), StoreError::Io);
    let empty = CsvTable::from_csv_bytes(b"").unwrap();
    assert!(empty.header.is_empty() && empty.rows.is_empty());
}

#[test]
fn temp_dir_is_the_parent() {
    assert_eq!(temp_dir_path_from_path("data/animals_alive.csv"), Ok("data".to_string()));
    assert_eq!(temp_dir_path_from_path("animals_alive.csv"), Ok("".to_string()));
    assert_eq!(temp_dir_path_from_path("/"), Err(StoreError::Io));
    assert_eq!(temp_dir_path_from_path(""), Err(StoreError::Io));
}
