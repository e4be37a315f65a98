//! A small capability-based role registry: the `Person`, `Student`,
//! `Programmer` and `CompSciStudent` capability traits, the concrete roles
//! that implement subsets of them, a factory that buckets a seed into a
//! role, and the functions that describe a computer-science student.

use vstd::prelude::*;
use vstd::string::StringExecFns;

verus! {

/// What `str::to_lowercase` returns for a given sequence of characters.
pub uninterp spec fn lower_of(s: Seq<char>) -> Seq<char>;

/// Relies on str::to_lowercase: the lowercased string depends on the
/// characters of the input alone.
#[verifier::external_body]
fn lowercase(s: &str) -> (r: String)
    ensures
        r@ == lower_of(s@),
{
    s.to_lowercase()
}

/// The capability of having a name.
pub trait Person {
    /// The name this person reports.
    spec fn spec_name(&self) -> Seq<char>;

    fn name(&self) -> (r: String)
        ensures
            r@ == self.spec_name(),
    ;
}

/// The capability of attending a university; every student is a person.
pub trait Student: Person {
    /// The university this student reports.
    spec fn spec_university(&self) -> Seq<char>;

    fn university(&self) -> (r: String)
        ensures
            r@ == self.spec_university(),
    ;
}

/// The capability of having a favourite programming language.
pub trait Programmer {
    /// The favourite language this programmer reports.
    spec fn spec_fav_language(&self) -> Seq<char>;

    fn fav_language(&self) -> (r: String)
        ensures
            r@ == self.spec_fav_language(),
    ;
}

/// The capability of a computer-science student: a student, a programmer,
/// and the owner of a git account.
pub trait CompSciStudent: Student + Programmer {
    /// The git username this student reports.
    spec fn spec_git_username(&self) -> Seq<char>;

    fn git_username(&self) -> (r: String)
        ensures
            r@ == self.spec_git_username(),
    ;
}

/// A person off the street; carries a name but never reports it.
pub struct StreetPerson(pub String);

/// A programmer whose favourite language is Rust; carries a name but never
/// reports it.
pub struct RustProgrammer(pub String);

/// A community-college computer-science student, who reports the name the
/// value carries.
pub struct CollegeStudent(pub String);

impl Person for StreetPerson {
    open spec fn spec_name(&self) -> Seq<char> {
        "Unnamed"@
    }

    fn name(&self) -> (r: String) {
        String::from_str("Unnamed")
    }
}

impl Person for RustProgrammer {
    open spec fn spec_name(&self) -> Seq<char> {
        "Unnamed"@
    }

    fn name(&self) -> (r: String) {
        String::from_str("Unnamed")
    }
}

impl Programmer for RustProgrammer {
    open spec fn spec_fav_language(&self) -> Seq<char> {
        "Rust"@
    }

    fn fav_language(&self) -> (r: String) {
        String::from_str("Rust")
    }
}

impl Person for CollegeStudent {
    open spec fn spec_name(&self) -> Seq<char> {
        self.0@
    }

    fn name(&self) -> (r: String) {
        self.0.clone()
    }
}

impl Student for CollegeStudent {
    open spec fn spec_university(&self) -> Seq<char> {
        "Community college"@
    }

    fn university(&self) -> (r: String) {
        String::from_str("Community college")
    }
}

impl Programmer for CollegeStudent {
    open spec fn spec_fav_language(&self) -> Seq<char> {
        "From Python to Rust"@
    }

    fn fav_language(&self) -> (r: String) {
        String::from_str("From Python to Rust")
    }
}

impl CompSciStudent for CollegeStudent {
    open spec fn spec_git_username(&self) -> Seq<char> {
        lower_of(self.0@)
    }

    fn git_username(&self) -> (r: String) {
        lowercase(self.0.as_str())
    }
}

/// A role picked at run time. Every role is a person, so the registry can
/// hand any of them out behind the `Person` capability.
pub enum Role {
    Street(StreetPerson),
    College(CollegeStudent),
    Programmer(RustProgrammer),
}

impl Person for Role {
    open spec fn spec_name(&self) -> Seq<char> {
        match self {
            Role::Street(p) => p.spec_name(),
            Role::College(p) => p.spec_name(),
            Role::Programmer(p) => p.spec_name(),
        }
    }

    fn name(&self) -> (r: String) {
        match self {
            Role::Street(p) => p.name(),
            Role::College(p) => p.name(),
            Role::Programmer(p) => p.name(),
        }
    }
}

/// Deterministic bucketing of a seed into a role: seeds 0 through 3 give
/// the street person "Bob", 4 through 6 the college student "Jake", 7
/// through 9 the Rust programmer "Don", and every other seed the street
/// person "Someone".
pub fn make_person(rnd: u8) -> (p: Role)
    ensures
        rnd <= 3 ==> (p matches Role::Street(s) && s.0@ == "Bob"@),
        4 <= rnd <= 6 ==> (p matches Role::College(s) && s.0@ == "Jake"@),
        7 <= rnd <= 9 ==> (p matches Role::Programmer(s) && s.0@ == "Don"@),
        rnd > 9 ==> (p matches Role::Street(s) && s.0@ == "Someone"@),
{
    if rnd <= 3 {
        Role::Street(StreetPerson(String::from_str("Bob")))
    } else if rnd <= 6 {
        Role::College(CollegeStudent(String::from_str("Jake")))
    } else if rnd <= 9 {
        Role::Programmer(RustProgrammer(String::from_str("Don")))
    } else {
        Role::Street(StreetPerson(String::from_str("Someone")))
    }
}

/// The one-line description of a computer-science student: name,
/// university, favourite language and git username.
pub open spec fn greeting_of(
    name: Seq<char>,
    university: Seq<char>,
    language: Seq<char>,
    git: Seq<char>,
) -> Seq<char> {
    "Name is "@ + name + " I attend "@ + university + " Fav lang is "@ + language
        + " git username is "@ + git
}

/// Formats a computer-science student's name, university, favourite
/// language and git username into one line.
pub fn comp_sci_student_greeting<S: CompSciStudent>(student: &S) -> (r: String)
    ensures
        r@ == greeting_of(
            student.spec_name(),
            student.spec_university(),
            student.spec_fav_language(),
            student.spec_git_username(),
        ),
{
    let mut r = String::from_str("Name is ");
    let name = student.name();
    r.append(name.as_str());
    r.append(" I attend ");
    let university = student.university();
    r.append(university.as_str());
    r.append(" Fav lang is ");
    let language = student.fav_language();
    r.append(language.as_str());
    r.append(" git username is ");
    let git = student.git_username();
    r.append(git.as_str());
    r
}

/// The same description as `comp_sci_student_greeting`, reached through a
/// compile-time capability bound: the two always agree, as both contracts
/// pin the result to `greeting_of` on the same values.
pub fn comp_sci<T: CompSciStudent>(student: &T) -> (r: String)
    ensures
        r@ == greeting_of(
            student.spec_name(),
            student.spec_university(),
            student.spec_fav_language(),
            student.spec_git_username(),
        ),
{
    comp_sci_student_greeting(student)
}

/// The one-line announcement of a programmer: name and favourite language.
pub open spec fn programmer_line_of(name: Seq<char>, language: Seq<char>) -> Seq<char> {
    "Programmer named "@ + name + " loves "@ + language
}

/// Builds the programmer's announcement line and the student's description,
/// in that order: the caller emits the first component of the pair before
/// it makes any use of the second.
pub fn comp_sci_vs_programmer<T: CompSciStudent, U: Programmer + Person>(
    student: &T,
    programmer: &U,
) -> (r: (String, String))
    ensures
        r.0@ == programmer_line_of(programmer.spec_name(), programmer.spec_fav_language()),
        r.1@ == greeting_of(
            student.spec_name(),
            student.spec_university(),
            student.spec_fav_language(),
            student.spec_git_username(),
        ),
{
    let mut line = String::from_str("Programmer named ");
    let name = programmer.name();
    line.append(name.as_str());
    line.append(" loves ");
    let language = programmer.fav_language();
    line.append(language.as_str());
    (line, comp_sci(student))
}

} // verus!
