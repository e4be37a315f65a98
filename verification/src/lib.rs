//! A bounded sequence generator and a small capability-based role registry.
//!
//! `counter` holds `Counter`, a generator that yields exactly the values
//! 1 through 5 and is then exhausted for good, together with the derived
//! product-sum it supports. `people` holds the `Person` / `Student` /
//! `Programmer` / `CompSciStudent` capability traits, the concrete roles
//! that implement them, and the functions that select and describe roles.

pub mod counter;
pub mod people;

pub use counter::Counter;
pub use people::{
    CollegeStudent, CompSciStudent, Person, Programmer, Role, RustProgrammer, StreetPerson,
    Student, comp_sci, comp_sci_student_greeting, comp_sci_vs_programmer, make_person,
};
