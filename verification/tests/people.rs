use counter_roles::{
    CollegeStudent, CompSciStudent, Person, Programmer, Role, RustProgrammer, StreetPerson,
    Student, comp_sci, comp_sci_student_greeting, comp_sci_vs_programmer, make_person,
};

#[test]
fn select_role_buckets() {
    assert!(matches!(make_person(0), Role::Street(StreetPerson(n)) if n == "Bob"));
    assert!(matches!(make_person(3), Role::Street(StreetPerson(n)) if n == "Bob"));
    assert!(matches!(make_person(5), Role::College(CollegeStudent(n)) if n == "Jake"));
    assert!(matches!(make_person(9), Role::Programmer(RustProgrammer(n)) if n == "Don"));
    assert!(matches!(make_person(200), Role::Street(StreetPerson(n)) if n == "Someone"));
}

#[test]
fn college_student_capabilities() {
    let student = CollegeStudent("Bert".to_string());
    assert_eq!(student.name(), "Bert");
    assert_eq!(student.university(), "Community college");
    assert_eq!(student.fav_language(), "From Python to Rust");
}

#[test]
fn git_username_is_lowercased_owner_name() {
    let student = CollegeStudent("Bert".to_string());
    assert_eq!(student.git_username(), "bert");
}

#[test]
fn describe_comp_sci_student() {
    let student = CollegeStudent("Bert".to_string());
    assert_eq!(
        comp_sci_student_greeting(&student),
        "Name is Bert I attend Community college Fav lang is From Python to Rust git username is bert",
    );
}

#[test]
fn both_dispatch_paths_agree() {
    let student = CollegeStudent("Bert".to_string());
    assert_eq!(comp_sci_student_greeting(&student), comp_sci(&student));
}

#[test]
fn unnamed_roles_report_the_default_name() {
    let street = StreetPerson("Bob".to_string());
    assert_eq!(street.name(), "Unnamed");
    let programmer = RustProgrammer("Don".to_string());
    assert_eq!(programmer.name(), "Unnamed");
    assert_eq!(make_person(8).name(), "Unnamed");
}

#[test]
fn role_reports_the_students_own_name() {
    assert_eq!(make_person(4).name(), "Jake");
}

#[test]
fn programmer_line_precedes_student_description() {
    let student = CollegeStudent("Bert".to_string());
    let programmer = RustProgrammer("Bob".to_string());
    let (line, description) = comp_sci_vs_programmer(&student, &programmer);
    assert_eq!(line, "Programmer named Unnamed loves Rust");
    assert_eq!(
        description,
        "Name is Bert I attend Community college Fav lang is From Python to Rust git username is bert",
    );
}
