//! Users: an identifier and a validated display name.

use crate::identifier::{is_random_identifier, random_identifier};
use crate::username::{valid_username, Username, INVALID_USERNAME};
use vstd::prelude::*;

verus! {

/// What a user is: an identifier, a display name, and the table the user
/// currently sits at, if any.
pub struct UserView {
    pub user_id: u128,
    pub name: Seq<char>,
    pub current_table_id: Option<Seq<char>>,
}

/// An identity record. Its fields are written once, when it is made.
#[derive(Debug)]
pub struct User {
    uuid: u128,
    name: Username,
    current_table_id: Option<String>,
}

impl View for User {
    type V = UserView;

    closed spec fn view(&self) -> UserView {
        UserView {
            user_id: self.uuid,
            name: self.name@,
            current_table_id: match self.current_table_id {
                Some(table) => Some(table@),
                None => None,
            },
        }
    }
}

impl Clone for User {
    fn clone(&self) -> (r: Self)
        ensures
            r == *self,
    {
        User {
            uuid: self.uuid,
            name: self.name.clone(),
            current_table_id: match &self.current_table_id {
                Some(table) => Some(table.clone()),
                None => None,
            },
        }
    }
}

impl User {
    /// Makes a user called `name` under a fresh random identifier, if the
    /// name is valid. A new user sits at no table.
    pub fn new(name: String) -> (r: Result<User, &'static str>)
        ensures
            match r {
                Ok(user) => {
                    &&& valid_username(name@)
                    &&& user@.name == name@
                    &&& user@.current_table_id is None
                    &&& is_random_identifier(user@.user_id)
                },
                Err(why) => !valid_username(name@) && why@ == INVALID_USERNAME@,
            },
    {
        let uuid = random_identifier();
        User::with_id(uuid, name.as_str())
    }

    /// Makes the user `user_id` called `name`, if the name is valid. A new
    /// user sits at no table.
    pub fn with_id(user_id: u128, name: &str) -> (r: Result<User, &'static str>)
        ensures
            match r {
                Ok(user) => valid_username(name@) && user@ == (UserView {
                    user_id,
                    name: name@,
                    current_table_id: None,
                }),
                Err(why) => !valid_username(name@) && why@ == INVALID_USERNAME@,
            },
    {
        match Username::new(name) {
            Ok(username) => Ok(User { uuid: user_id, name: username, current_table_id: None }),
            Err(why) => Err(why),
        }
    }

    /// Puts a user together from an identifier, a name that has passed
    /// validation, and the table the user sits at, if any.
    pub fn from_parts(user_id: u128, name: Username, current_table_id: Option<String>) -> (user:
        User)
        ensures
            user@ == (UserView {
                user_id,
                name: name@,
                current_table_id: match current_table_id {
                    Some(table) => Some(table@),
                    None => None,
                },
            }),
    {
        User { uuid: user_id, name, current_table_id }
    }

    /// The user's identifier.
    pub fn user_id(&self) -> (id: u128)
        ensures
            id == self@.user_id,
    {
        self.uuid
    }

    /// The user's display name.
    pub fn name(&self) -> (name: &Username)
        ensures
            name@ == self@.name,
            valid_username(name@),
    {
        proof {
            use_type_invariant(&self.name);
        }
        &self.name
    }

    /// The table the user currently sits at, if any.
    pub fn current_table_id(&self) -> (table: Option<&str>)
        ensures
            match table {
                Some(text) => self@.current_table_id == Some(text@),
                None => self@.current_table_id is None,
            },
    {
        match &self.current_table_id {
            Some(table) => Some(table.as_str()),
            None => None,
        }
    }
}

} // verus!
