//! Display names: the one gate through which a name becomes a `Username`.

use vstd::prelude::*;

verus! {

/// The least number of characters a username may have.
pub const MIN_USERNAME_CHARS: usize = 3;

/// The greatest number of characters a username may have.
pub const MAX_USERNAME_CHARS: usize = 20;

/// The text that explains why a name was turned down.
pub const INVALID_USERNAME: &'static str =
    "Invalid username: it must be between 3 and 20 characters long and contain only alphanumeric characters";

/// Whether `c` is alphanumeric in the sense of `char::is_alphanumeric`:
/// a letter or a number of any script.
pub uninterp spec fn is_alphanumeric(c: char) -> bool;

/// `char::is_alphanumeric` decides by the character alone; its answer is
/// what `is_alphanumeric` stands for.
pub assume_specification[ char::is_alphanumeric ](c: char) -> (r: bool)
    ensures
        r == is_alphanumeric(c),
;

/// A name is valid when it has 3 to 20 characters and every one of them is
/// alphanumeric.
pub open spec fn valid_username(name: Seq<char>) -> bool {
    &&& MIN_USERNAME_CHARS <= name.len() <= MAX_USERNAME_CHARS
    &&& forall|i: int| 0 <= i < name.len() ==> is_alphanumeric(#[trigger] name[i])
}

/// A display name that has passed validation.
#[derive(Debug)]
pub struct Username {
    value: String,
}

impl View for Username {
    type V = Seq<char>;

    closed spec fn view(&self) -> Seq<char> {
        self.value@
    }
}

impl Clone for Username {
    fn clone(&self) -> (r: Self)
        ensures
            r == *self,
    {
        proof {
            use_type_invariant(self);
        }
        Username { value: self.value.clone() }
    }
}

impl Username {
    /// Every `Username` that exists holds a valid name.
    #[verifier::type_invariant]
    pub open spec fn inv(self) -> bool {
        valid_username(self@)
    }

    /// Validates `username` and, if it is valid, keeps a copy of it.
    pub fn new(username: &str) -> (r: Result<Username, &'static str>)
        ensures
            match r {
                Ok(name) => valid_username(username@) && name@ == username@,
                Err(why) => !valid_username(username@) && why@ == INVALID_USERNAME@,
            },
    {
        if Username::is_valid(username) {
            Ok(Username { value: username.to_owned() })
        } else {
            Err(INVALID_USERNAME)
        }
    }

    /// Decides whether `username` may become a `Username`.
    pub fn is_valid(username: &str) -> (ok: bool)
        ensures
            ok == valid_username(username@),
    {
        let len: usize = username.unicode_len();
        if len < MIN_USERNAME_CHARS || len > MAX_USERNAME_CHARS {
            return false;
        }
        let mut i: usize = 0;
        while i < len
            invariant
                len == username@.len(),
                i <= len,
                forall|j: int| 0 <= j < i ==> is_alphanumeric(#[trigger] username@[j]),
            decreases len - i,
        {
            if !username.get_char(i).is_alphanumeric() {
                return false;
            }
            i += 1;
        }
        true
    }

    /// The name as text.
    pub fn value(&self) -> (r: &str)
        ensures
            r@ == self@,
            valid_username(r@),
    {
        proof {
            use_type_invariant(self);
        }
        self.value.as_str()
    }
}

} // verus!
