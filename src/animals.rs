//! A whole animal: species attributes and sex in one value.
use vstd::prelude::*;
use crate::animal_structs::{
    blood_of, blood_type_of, class_tag, class_word, name_list, sex_tag, sex_word, BloodType, Class,
    Sex,
};
use crate::commands::{pick, random_below};
use crate::text::{join_hyphen, join_with_hyphen};

verus! {

/// Where an animal reports what it does.
pub trait Logger: Sized {
    /// The messages logged so far, oldest first.
    spec fn logged(&self) -> Seq<Seq<char>>;

    /// Records one message after the earlier ones.
    fn log(&mut self, value: String)
        ensures
            final(self).logged() == old(self).logged().push(value@),
    ;
}

/// A logger that keeps every message in memory.
#[derive(Debug, Default)]
pub struct MemoryLogger {
    pub lines: Vec<String>,
}

impl Logger for MemoryLogger {
    open spec fn logged(&self) -> Seq<Seq<char>> {
        self.lines.deep_view()
    }

    fn log(&mut self, value: String) {
        self.lines.push(value);
        proof {
            assert(self.lines.deep_view() =~= old(self).lines.deep_view().push(value@));
        }
    }
}

#[derive(PartialEq, Debug)]
pub struct Animal {
    pub name: String,
    pub class: Class,
    pub predators: Vec<String>,
    pub preys: Vec<String>,
    pub sex: Sex,
}

impl Animal {
    pub fn name(&self) -> (r: String)
        ensures
            r@ == self.name@,
    {
        self.name.clone()
    }

    pub fn class(&self) -> (r: &Class)
        ensures
            *r == self.class,
    {
        &self.class
    }

    pub fn class_str(&self) -> (r: String)
        ensures
            r@ == class_tag(self.class),
    {
        class_word(self.class)
    }

    pub fn predators(&self) -> (r: &Vec<String>)
        ensures
            *r == self.predators,
    {
        &self.predators
    }

    pub fn predators_str(&self) -> (r: String)
        ensures
            r@ == join_hyphen(self.predators.deep_view()),
    {
        join_with_hyphen(&self.predators)
    }

    pub fn preys(&self) -> (r: &Vec<String>)
        ensures
            *r == self.preys,
    {
        &self.preys
    }

    pub fn preys_str(&self) -> (r: String)
        ensures
            r@ == join_hyphen(self.preys.deep_view()),
    {
        join_with_hyphen(&self.preys)
    }

    pub fn sex(&self) -> (r: &Sex)
        ensures
            *r == self.sex,
    {
        &self.sex
    }

    pub fn sex_str(&self) -> (r: String)
        ensures
            r@ == sex_tag(self.sex),
    {
        sex_word(self.sex)
    }

    pub fn blood_type(&self) -> (r: BloodType)
        ensures
            r == blood_of(self.class),
    {
        blood_type_of(self.class)
    }

    pub fn born(
        name: String,
        class: Class,
        predators: Vec<String>,
        preys: Vec<String>,
        sex: Sex,
    ) -> (r: Self)
        ensures
            r.name == name,
            r.class == class,
            r.predators == predators,
            r.preys == preys,
            r.sex == sex,
    {
        Animal { name, class, predators, preys, sex }
    }

    /// What the animal reports after eating the prey at `choice` among its preys.
    pub fn eat_message(&self, choice: usize) -> (r: String)
        ensures
            r@ == self.name@ + " found a "@ + pick(self.preys.deep_view(), choice as nat)
                + " and eated it!"@,
    {
        let mut s = self.name();
        s.append(" found a ");
        if choice < self.preys.len() {
            s.append(self.preys[choice].as_str());
        } else {
            assert(pick(self.preys.deep_view(), choice as nat) == Seq::<char>::empty());
            assert(s@ + Seq::<char>::empty() =~= s@);
        }
        s.append(" and eated it!");
        s
    }

    /// Eats one of its preys, drawn at random, and reports it: the logger
    /// receives exactly one message, naming that prey.
    pub fn eat<L: Logger>(&self, logger: &mut L)
        requires
            self.preys@.len() > 0,
        ensures
            exists|i: int|
                0 <= i < self.preys@.len() && final(logger).logged() == old(logger).logged().push(
                    self.name@ + " found a "@ + #[trigger] self.preys.deep_view()[i]
                        + " and eated it!"@,
                ),
    {
        let choice = random_below(self.preys.len());
        logger.log(self.eat_message(choice));
    }
}

/// Sample animal: a male cow.
pub fn cow_model() -> (r: Animal)
    ensures
        r.name@ == "Cow"@,
        r.class == Class::Mammal,
        r.predators.deep_view() == seq!["fox"@, "human"@],
        r.preys.deep_view() == seq!["grass"@, "straw"@],
        r.sex == Sex::Male,
{
    Animal::born(
        String::from_str("Cow"),
        Class::Mammal,
        name_list("fox", "human"),
        name_list("grass", "straw"),
        Sex::Male,
    )
}

/// Sample animal: a female snake.
pub fn snake_model() -> (r: Animal)
    ensures
        r.name@ == "snake"@,
        r.class == Class::Reptile,
        r.predators.deep_view() == seq!["eagle"@, "mongoose"@],
        r.preys.deep_view() == seq!["rat"@, "squirrel"@],
        r.sex == Sex::Female,
{
    Animal::born(
        String::from_str("snake"),
        Class::Reptile,
        name_list("eagle", "mongoose"),
        name_list("rat", "squirrel"),
        Sex::Female,
    )
}

} // verus!
