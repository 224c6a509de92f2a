//! State of the login form.  Rendering it, and acting on a submitted login,
//! are the caller's business; this is the form's data and its transitions.

use vstd::prelude::*;

verus! {

/// The two fields of the login form.
#[derive(Debug)]
pub struct Login {
    username: String,
    password: String,
}

#[derive(Debug, Clone)]
pub enum Message {
    UsernameChanged(String),
    PasswordChanged(String),
    LoginPressed,
}

impl Default for Login {
    fn default() -> (r: Self)
        ensures
            r.username_view() == Seq::<char>::empty(),
            r.password_view() == Seq::<char>::empty(),
    {
        Login { username: String::new(), password: String::new() }
    }
}

impl Login {
    pub closed spec fn username_view(&self) -> Seq<char> {
        self.username@
    }

    pub closed spec fn password_view(&self) -> Seq<char> {
        self.password@
    }

    /// Applies one edit to the form; pressing the login button changes
    /// nothing here, acting on it belongs to the caller.
    pub fn update(&mut self, message: Message)
        ensures
            (match message {
                Message::UsernameChanged(username) => final(self).username_view() == username@
                    && final(self).password_view() == old(self).password_view(),
                Message::PasswordChanged(password) => final(self).password_view() == password@
                    && final(self).username_view() == old(self).username_view(),
                Message::LoginPressed => final(self).username_view() == old(self).username_view()
                    && final(self).password_view() == old(self).password_view(),
            }),
    {
        match message {
            Message::UsernameChanged(username) => self.username = username,
            Message::PasswordChanged(password) => self.password = password,
            Message::LoginPressed => {},
        }
    }
}

} // verus!
