use animals_cli::animal_structs::{snake_data, snake_female, BloodType, Class, Sex};

#[test]
fn animal_structs_test_class() {
    let snake = snake_data();
    let class = snake.class();
    assert_eq!(class, &Class::Reptile);
}

#[test]
fn animal_structs_test_predators() {
    let snake = snake_data();
    let predators = snake.predators();
    assert_eq!(
        predators,
        &vec![String::from("eagle"), String::from("mongoose")]
    )
}

#[test]
fn animal_structs_test_predators_str() {
    let snake = snake_data();
    assert_eq!(snake.predators_str(), "eagle-mongoose");
}

#[test]
fn animal_structs_test_preys() {
    let snake = snake_data();
    let preys = snake.preys();
    assert_eq!(preys, &vec![String::from("rat"), String::from("squirrel")])
}

#[test]
fn animal_structs_test_blood_type() {
    let snake = snake_data();
    let snake_blood_type = snake.blood_type();
    assert_eq!(snake_blood_type, BloodType::Cold);
}

#[test]
fn animal_structs_test_name() {
    let snake = snake_female();
    let name = snake.name();
    assert_eq!(name, "snake");
}

#[test]
fn animal_structs_test_sex() {
    let snake = snake_female();
    let snake_sex = snake.sex();
    assert_eq!(snake_sex, &Sex::Female);
}

#[test]
fn class_and_sex_words() {
    let snake = snake_data();
    assert_eq!(snake.class_str(), "reptile");
    assert_eq!(snake.preys_str(), "rat-squirrel");
    assert_eq!(snake_female().sex_str(), "female");
    let bird = animals_cli::animal_structs::AnimalData::new(
        "eagle".to_string(),
        Class::Bird,
        vec![],
        vec!["snake".to_string()],
    );
    assert_eq!(bird.class_str(), "bird");
    assert_eq!(bird.blood_type(), BloodType::Warm);
    assert_eq!(bird.predators_str(), "");
}
