use animals_cli::animal_structs::{AnimalAlive, AnimalData, BloodType, Class, Sex};

fn snake() -> AnimalData {
    AnimalData::new(
        "snake".to_string(),
        Class::Reptile,
        vec![String::from("eagle"), String::from("mongoose")],
        vec![String::from("rat"), String::from("squirrel")],
    )
}

#[test]
fn animals_csv_test_name() {
    let snake = AnimalAlive::born("snake", Sex::Female);
    let name = snake.name();
    assert_eq!(name, "snake");
}

#[test]
fn animals_csv_test_class() {
    let snake = snake();
    let class = snake.class();
    assert_eq!(class, &Class::Reptile);
}

#[test]
fn animals_csv_test_predators() {
    let snake = snake();
    let predators = snake.predators();
    assert_eq!(
        predators,
        &vec![String::from("eagle"), String::from("mongoose")]
    )
}

#[test]
fn animals_csv_test_predators_str() {
    let snake = snake();
    assert_eq!(snake.predators_str(), "eagle-mongoose");
}

#[test]
fn animals_csv_test_preys() {
    let snake = snake();
    let preys = snake.preys();
    assert_eq!(preys, &vec![String::from("rat"), String::from("squirrel")])
}

#[test]
fn animals_csv_test_sex() {
    let snake = AnimalAlive::born("snake", Sex::Female);
    let snake_sex = snake.sex();
    assert_eq!(snake_sex, &Sex::Female);
}

#[test]
fn animals_csv_test_blood_type() {
    let snake = snake();
    let snake_blood_type = snake.blood_type();
    assert_eq!(snake_blood_type, BloodType::Cold);
}

#[test]
fn animals_csv_test_born() {
    let snake = AnimalAlive::born("snake", Sex::Female);
    assert_eq!(
        snake,
        AnimalAlive {
            name: String::from("snake"),
            sex: Sex::Female,
        }
    )
}
