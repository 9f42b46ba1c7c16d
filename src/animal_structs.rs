//! The two entity kinds of the store, species data and living individuals,
//! with their class, sex and blood-type vocabularies.
use vstd::prelude::*;
use crate::text::{join_hyphen, join_with_hyphen};

verus! {

#[derive(PartialEq, Eq, Debug, Clone, Copy, Structural)]
pub enum BloodType {
    Warm,
    Cold,
}

#[derive(PartialEq, Eq, Debug, Clone, Copy, Structural)]
pub enum Class {
    Reptile,
    Mammal,
    Fish,
    Bird,
    Arthropod,
    Amphibian,
}

#[derive(PartialEq, Eq, Debug, Clone, Copy, Structural)]
pub enum Sex {
    Male,
    Female,
}

/// The lowercase word that stands for a class in a stored row.
pub open spec fn class_tag(c: Class) -> Seq<char> {
    match c {
        Class::Mammal => seq!['m', 'a', 'm', 'm', 'a', 'l'],
        Class::Bird => seq!['b', 'i', 'r', 'd'],
        Class::Amphibian => seq!['a', 'm', 'p', 'h', 'i', 'b', 'i', 'a', 'n'],
        Class::Arthropod => seq!['a', 'r', 't', 'h', 'r', 'o', 'p', 'o', 'd'],
        Class::Fish => seq!['f', 'i', 's', 'h'],
        Class::Reptile => seq!['r', 'e', 'p', 't', 'i', 'l', 'e'],
    }
}

/// The class whose word is `t`, if any.
pub open spec fn class_of_tag(t: Seq<char>) -> Option<Class> {
    if t == class_tag(Class::Mammal) {
        Some(Class::Mammal)
    } else if t == class_tag(Class::Bird) {
        Some(Class::Bird)
    } else if t == class_tag(Class::Amphibian) {
        Some(Class::Amphibian)
    } else if t == class_tag(Class::Arthropod) {
        Some(Class::Arthropod)
    } else if t == class_tag(Class::Fish) {
        Some(Class::Fish)
    } else if t == class_tag(Class::Reptile) {
        Some(Class::Reptile)
    } else {
        None
    }
}

/// The lowercase word that stands for a sex in a stored row.
pub open spec fn sex_tag(s: Sex) -> Seq<char> {
    match s {
        Sex::Male => seq!['m', 'a', 'l', 'e'],
        Sex::Female => seq!['f', 'e', 'm', 'a', 'l', 'e'],
    }
}

/// The sex whose word is `t`, if any.
pub open spec fn sex_of_tag(t: Seq<char>) -> Option<Sex> {
    if t == sex_tag(Sex::Male) {
        Some(Sex::Male)
    } else if t == sex_tag(Sex::Female) {
        Some(Sex::Female)
    } else {
        None
    }
}

/// Mammals and birds are warm-blooded; every other class is cold-blooded.
pub open spec fn blood_of(c: Class) -> BloodType {
    match c {
        Class::Mammal | Class::Bird => BloodType::Warm,
        _ => BloodType::Cold,
    }
}

pub proof fn lemma_class_tag_inverse(c: Class)
    ensures
        class_of_tag(class_tag(c)) == Some(c),
{
    assert(class_tag(Class::Mammal) != class_tag(Class::Bird));
    assert(class_tag(Class::Mammal)[1] != class_tag(Class::Amphibian)[1]);
    assert(class_tag(Class::Mammal) != class_tag(Class::Arthropod));
    assert(class_tag(Class::Mammal) != class_tag(Class::Fish));
    assert(class_tag(Class::Mammal) != class_tag(Class::Reptile));
    assert(class_tag(Class::Bird) != class_tag(Class::Amphibian));
    assert(class_tag(Class::Bird) != class_tag(Class::Arthropod));
    assert(class_tag(Class::Bird)[0] != class_tag(Class::Fish)[0]);
    assert(class_tag(Class::Bird) != class_tag(Class::Reptile));
    assert(class_tag(Class::Amphibian)[1] != class_tag(Class::Arthropod)[1]);
    assert(class_tag(Class::Amphibian) != class_tag(Class::Fish));
    assert(class_tag(Class::Amphibian) != class_tag(Class::Reptile));
    assert(class_tag(Class::Arthropod) != class_tag(Class::Fish));
    assert(class_tag(Class::Arthropod) != class_tag(Class::Reptile));
    assert(class_tag(Class::Fish) != class_tag(Class::Reptile));
}

pub proof fn lemma_sex_tag_inverse(s: Sex)
    ensures
        sex_of_tag(sex_tag(s)) == Some(s),
{
    assert(sex_tag(Sex::Male) != sex_tag(Sex::Female));
}

/// Species-level data: one stored row per species name.
#[derive(PartialEq, Debug)]
pub struct AnimalData {
    pub name: String,
    pub class: Class,
    pub predators: Vec<String>,
    pub preys: Vec<String>,
}

pub struct AnimalDataView {
    pub name: Seq<char>,
    pub class: Class,
    pub predators: Seq<Seq<char>>,
    pub preys: Seq<Seq<char>>,
}

impl View for AnimalData {
    type V = AnimalDataView;

    open spec fn view(&self) -> AnimalDataView {
        AnimalDataView {
            name: self.name@,
            class: self.class,
            predators: self.predators.deep_view(),
            preys: self.preys.deep_view(),
        }
    }
}

impl AnimalData {
    pub fn new(name: String, class: Class, predators: Vec<String>, preys: Vec<String>) -> (r: Self)
        ensures
            r.name == name,
            r.class == class,
            r.predators == predators,
            r.preys == preys,
    {
        AnimalData { name, class, predators, preys }
    }

    pub fn name(&self) -> (r: String)
        ensures
            r@ == self.name@,
    {
        self.name.clone()
    }

    pub fn class(&self) -> (r: &Class)
        ensures
            *r == self.class,
    {
        &self.class
    }

    pub fn class_str(&self) -> (r: String)
        ensures
            r@ == class_tag(self.class),
    {
        class_word(self.class)
    }

    pub fn predators(&self) -> (r: &Vec<String>)
        ensures
            *r == self.predators,
    {
        &self.predators
    }

    pub fn predators_str(&self) -> (r: String)
        ensures
            r@ == join_hyphen(self.predators.deep_view()),
    {
        join_with_hyphen(&self.predators)
    }

    pub fn preys(&self) -> (r: &Vec<String>)
        ensures
            *r == self.preys,
    {
        &self.preys
    }

    pub fn preys_str(&self) -> (r: String)
        ensures
            r@ == join_hyphen(self.preys.deep_view()),
    {
        join_with_hyphen(&self.preys)
    }

    pub fn blood_type(&self) -> (r: BloodType)
        ensures
            r == blood_of(self.class),
    {
        blood_type_of(self.class)
    }
}

/// The stored word for a class.
pub fn class_word(c: Class) -> (r: String)
    ensures
        r@ == class_tag(c),
{
    match c {
        Class::Mammal => {
            proof { reveal_strlit("mammal"); }
            String::from_str("mammal")
        },
        Class::Bird => {
            proof { reveal_strlit("bird"); }
            String::from_str("bird")
        },
        Class::Amphibian => {
            proof { reveal_strlit("amphibian"); }
            String::from_str("amphibian")
        },
        Class::Arthropod => {
            proof { reveal_strlit("arthropod"); }
            String::from_str("arthropod")
        },
        Class::Fish => {
            proof { reveal_strlit("fish"); }
            String::from_str("fish")
        },
        Class::Reptile => {
            proof { reveal_strlit("reptile"); }
            String::from_str("reptile")
        },
    }
}

/// The stored word for a sex.
pub fn sex_word(s: Sex) -> (r: String)
    ensures
        r@ == sex_tag(s),
{
    match s {
        Sex::Male => {
            proof { reveal_strlit("male"); }
            String::from_str("male")
        },
        Sex::Female => {
            proof { reveal_strlit("female"); }
            String::from_str("female")
        },
    }
}

pub fn blood_type_of(c: Class) -> (r: BloodType)
    ensures
        r == blood_of(c),
{
    match c {
        Class::Mammal | Class::Bird => BloodType::Warm,
        Class::Amphibian | Class::Arthropod | Class::Fish | Class::Reptile => BloodType::Cold,
    }
}

/// A list of two names.
pub(crate) fn name_list(a: &str, b: &str) -> (r: Vec<String>)
    ensures
        r.deep_view() == seq![a@, b@],
{
    let mut v: Vec<String> = Vec::new();
    v.push(String::from_str(a));
    v.push(String::from_str(b));
    assert(v.deep_view() =~= seq![a@, b@]);
    v
}

/// Sample species data: the snake.
pub fn snake_data() -> (r: AnimalData)
    ensures
        r@.name == "snake"@,
        r@.class == Class::Reptile,
        r@.predators == seq!["eagle"@, "mongoose"@],
        r@.preys == seq!["rat"@, "squirrel"@],
{
    AnimalData::new(
        String::from_str("snake"),
        Class::Reptile,
        name_list("eagle", "mongoose"),
        name_list("rat", "squirrel"),
    )
}

/// Sample species data: the chameleon.
pub fn chameleon_data() -> (r: AnimalData)
    ensures
        r@.name == "chameleon"@,
        r@.class == Class::Reptile,
        r@.predators == seq!["bird"@, "snake"@],
        r@.preys == seq!["mantids"@, "crickets"@],
{
    AnimalData::new(
        String::from_str("chameleon"),
        Class::Reptile,
        name_list("bird", "snake"),
        name_list("mantids", "crickets"),
    )
}

/// One living individual of a species.
#[derive(PartialEq, Debug)]
pub struct AnimalAlive {
    pub name: String,
    pub sex: Sex,
}

pub struct AnimalAliveView {
    pub name: Seq<char>,
    pub sex: Sex,
}

impl View for AnimalAlive {
    type V = AnimalAliveView;

    open spec fn view(&self) -> AnimalAliveView {
        AnimalAliveView { name: self.name@, sex: self.sex }
    }
}

impl AnimalAlive {
    pub fn name(&self) -> (r: String)
        ensures
            r@ == self.name@,
    {
        self.name.clone()
    }

    pub fn sex(&self) -> (r: &Sex)
        ensures
            *r == self.sex,
    {
        &self.sex
    }

    pub fn sex_str(&self) -> (r: String)
        ensures
            r@ == sex_tag(self.sex),
    {
        sex_word(self.sex)
    }

    pub fn born(name: &str, sex: Sex) -> (r: AnimalAlive)
        ensures
            r@ == (AnimalAliveView { name: name@, sex }),
    {
        AnimalAlive { name: String::from_str(name), sex }
    }
}

/// Sample individual: a female snake.
pub fn snake_female() -> (r: AnimalAlive)
    ensures
        r@ == (AnimalAliveView { name: "snake"@, sex: Sex::Female }),
{
    AnimalAlive::born("snake", Sex::Female)
}

/// Sample individual: a male snake.
pub fn snake_male() -> (r: AnimalAlive)
    ensures
        r@ == (AnimalAliveView { name: "snake"@, sex: Sex::Male }),
{
    AnimalAlive::born("snake", Sex::Male)
}

/// Sample individual: a male chameleon.
pub fn chameleon_male() -> (r: AnimalAlive)
    ensures
        r@ == (AnimalAliveView { name: "chameleon"@, sex: Sex::Male }),
{
    AnimalAlive::born("chameleon", Sex::Male)
}

} // verus!
