//! A teacher's office on the chat server: the teacher and the three channels
//! that belong to the office.

use vstd::prelude::*;

verus! {

/// A room as a mathematical value: the four ids it was made from.
pub struct RoomView {
    pub user_id: u64,
    pub office_id: u64,
    pub waiting_id: u64,
    pub text_id: u64,
}

/// The ids are kept as signed 64-bit numbers, the form in which a document
/// store holds them. The bits are those of the unsigned id.
#[derive(Debug, Clone, Copy, PartialEq, Eq)]
pub struct Room {
    discord_id: i64,
    office_id: i64,
    waiting_id: i64,
    text_id: i64,
}

/// The signed number with the bits of an unsigned one.
pub open spec fn to_signed(id: u64) -> i64 {
    id as i64
}

/// The unsigned number with the bits of a signed one.
pub open spec fn to_unsigned(id: i64) -> u64 {
    id as u64
}

/// Changing an id to its signed form and back gives the id.
pub proof fn lemma_signed_round_trip(id: u64)
    ensures
        to_unsigned(to_signed(id)) == id,
{
    assert((id as i64) as u64 == id) by (bit_vector);
}

impl View for Room {
    type V = RoomView;

    closed spec fn view(&self) -> RoomView {
        RoomView {
            user_id: to_unsigned(self.discord_id),
            office_id: to_unsigned(self.office_id),
            waiting_id: to_unsigned(self.waiting_id),
            text_id: to_unsigned(self.text_id),
        }
    }
}

impl Room {
    /// The room of a teacher with its office, waiting and text channels.
    pub fn new(discord_id: u64, office_id: u64, waiting_id: u64, text_id: u64) -> (room: Room)
        ensures
            room@ == (RoomView {
                user_id: discord_id,
                office_id: office_id,
                waiting_id: waiting_id,
                text_id: text_id,
            }),
    {
        proof {
            lemma_signed_round_trip(discord_id);
            lemma_signed_round_trip(office_id);
            lemma_signed_round_trip(waiting_id);
            lemma_signed_round_trip(text_id);
        }
        Room {
            discord_id: #[verifier::truncate]
            (discord_id as i64),
            office_id: #[verifier::truncate]
            (office_id as i64),
            waiting_id: #[verifier::truncate]
            (waiting_id as i64),
            text_id: #[verifier::truncate]
            (text_id as i64),
        }
    }

    /// The teacher's id.
    pub fn get_user_id(&self) -> (id: u64)
        ensures
            id == self@.user_id,
    {
        #[verifier::truncate]
        (self.discord_id as u64)
    }

    /// The id of the office's voice channel.
    pub fn get_office_id(&self) -> (id: u64)
        ensures
            id == self@.office_id,
    {
        #[verifier::truncate]
        (self.office_id as u64)
    }

    /// The id of the waiting room's voice channel.
    pub fn get_waiting_id(&self) -> (id: u64)
        ensures
            id == self@.waiting_id,
    {
        #[verifier::truncate]
        (self.waiting_id as u64)
    }

    /// The id of the office's text channel.
    pub fn get_text_id(&self) -> (id: u64)
        ensures
            id == self@.text_id,
    {
        #[verifier::truncate]
        (self.text_id as u64)
    }
}

} // verus!
