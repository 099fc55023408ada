use shared_lib::models::{DevinciType, DevinciUser};

#[test]
fn stored_numbers_stand_for_types() {
    assert_eq!(DevinciType::from(0), DevinciType::Professor);
    for year in 1..=5u8 {
        assert_eq!(DevinciType::from(year), DevinciType::Student(year));
    }
    assert_eq!(DevinciType::from(6), DevinciType::Other);
    assert_eq!(DevinciType::from(7), DevinciType::Other);
    assert_eq!(DevinciType::from(255), DevinciType::Other);
}

#[test]
fn types_are_stored_as_numbers() {
    assert_eq!(u8::from(DevinciType::Professor), 0);
    assert_eq!(u8::from(DevinciType::Student(2)), 2);
    assert_eq!(u8::from(DevinciType::Other), 6);
    let code: u8 = DevinciType::Student(4).into();
    assert_eq!(DevinciType::from(code), DevinciType::Student(4));
    // a year outside 1 to 5 does not come back as a student
    assert_eq!(DevinciType::from(u8::from(DevinciType::Student(0))), DevinciType::Professor);
    assert_eq!(DevinciType::from(u8::from(DevinciType::Student(9))), DevinciType::Other);
}

#[test]
fn a_row_of_the_users_table() {
    let row = DevinciUser {
        discord_id: 0,
        first_name: "jean".to_string(),
        last_name: "MARCHAND".to_string(),
        mail: "jean.marchand@edu.devinci.fr".to_string(),
        func: DevinciType::Student(2).into(),
    };
    assert_eq!(DevinciType::from(row.func), DevinciType::Student(2));
}
