//! A member of the school as the registration service knows them.

use vstd::prelude::*;

verus! {

/// What a member is at the school.
#[derive(Debug, Clone, Copy, PartialEq, Eq, Structural)]
pub enum DevinciType {
    /// A student, with the year of study.
    Student(i32),
    Professor,
    Other,
}

/// A user as a mathematical value.
pub struct DevinciUserView {
    pub discord_id: i64,
    pub first_name: Seq<char>,
    pub last_name: Seq<char>,
    pub mail: Seq<char>,
    pub func: DevinciType,
}

/// A member of the school with the chat account that was linked to them.
#[derive(Debug)]
pub struct DevinciUser {
    discord_id: i64,
    first_name: String,
    last_name: String,
    mail: String,
    func: DevinciType,
}

impl View for DevinciUser {
    type V = DevinciUserView;

    closed spec fn view(&self) -> DevinciUserView {
        DevinciUserView {
            discord_id: self.discord_id,
            first_name: self.first_name@,
            last_name: self.last_name@,
            mail: self.mail@,
            func: self.func,
        }
    }
}

impl DevinciUser {
    /// A user who has no chat account linked yet: the id is 0.
    pub fn new(first_name: String, last_name: String, mail: String, func: DevinciType) -> (user:
        Self)
        ensures
            user@ == (DevinciUserView {
                discord_id: 0,
                first_name: first_name@,
                last_name: last_name@,
                mail: mail@,
                func: func,
            }),
    {
        Self { discord_id: 0, first_name, last_name, mail, func }
    }

    /// Links a chat account. The id is kept as the signed number with the
    /// same bits; everything else stays.
    pub fn set_discord_id(&mut self, id: u64)
        ensures
            final(self)@ == (DevinciUserView { discord_id: id as i64, ..old(self)@ }),
    {
        self.discord_id = #[verifier::truncate]
        (id as i64);
    }

    /// The id of the linked chat account, as it is kept; 0 if none is linked.
    pub fn get_discord_id(&self) -> (id: i64)
        ensures
            id == self@.discord_id,
    {
        self.discord_id
    }

    /// What the user is at the school.
    pub fn get_type(&self) -> (func: &DevinciType)
        ensures
            *func == self@.func,
    {
        &self.func
    }

    /// First name, then last name.
    pub fn get_name(&self) -> (name: (&str, &str))
        ensures
            name.0@ == self@.first_name,
            name.1@ == self@.last_name,
    {
        (self.first_name.as_str(), self.last_name.as_str())
    }
}

} // verus!
