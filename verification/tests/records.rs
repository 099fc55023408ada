use shared_lib::room::Room;
use shared_lib::user::{DevinciType, DevinciUser};

#[test]
fn a_room_gives_back_its_ids() {
    let room = Room::new(1, 2, 3, 4);
    assert_eq!(room.get_user_id(), 1);
    assert_eq!(room.get_office_id(), 2);
    assert_eq!(room.get_waiting_id(), 3);
    assert_eq!(room.get_text_id(), 4);
}

#[test]
fn room_ids_above_the_signed_range_survive() {
    let room = Room::new(u64::MAX, 1 << 63, (1 << 63) - 1, 0);
    assert_eq!(room.get_user_id(), u64::MAX);
    assert_eq!(room.get_office_id(), 1 << 63);
    assert_eq!(room.get_waiting_id(), (1 << 63) - 1);
    assert_eq!(room.get_text_id(), 0);
}

#[test]
fn a_new_user_has_no_account_linked() {
    let user = DevinciUser::new(
        String::from("test"),
        String::from("name"),
        String::from("test@devinci.fr"),
        DevinciType::Professor,
    );
    assert_eq!(user.get_discord_id(), 0);
    assert_eq!(user.get_name(), ("test", "name"));
    assert_eq!(*user.get_type(), DevinciType::Professor);
}

#[test]
fn linking_an_account_keeps_the_rest() {
    let mut user = DevinciUser::new(
        String::from("a"),
        String::from("b"),
        String::from("c"),
        DevinciType::Student(3),
    );
    user.set_discord_id(123456789012345678);
    assert_eq!(user.get_discord_id(), 123456789012345678);
    assert_eq!(user.get_name(), ("a", "b"));
    assert_eq!(*user.get_type(), DevinciType::Student(3));
    user.set_discord_id(u64::MAX);
    assert_eq!(user.get_discord_id(), -1);
}
