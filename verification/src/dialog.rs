//! The connection dialog: four input fields (server, user name, password,
//! protocol) and a fifth reserved one, with the cursor on one of them.

use vstd::prelude::*;
use crate::ftp::ProtocolType;
use crate::text::{chars_of, string_pop, string_push};

verus! {

/// The number of fields the cursor moves through.
pub open spec fn field_count() -> nat {
    5
}

/// The field after field `f`, the first after the last.
pub open spec fn field_after(f: nat) -> nat {
    ((f + 1) % field_count()) as nat
}

/// The field before field `f`, the last before the first.
pub open spec fn field_before(f: nat) -> nat {
    ((f + 4) % field_count()) as nat
}

/// The dialog as values.
pub struct DialogView {
    pub server: Seq<char>,
    pub username: Seq<char>,
    pub password: Seq<char>,
    pub use_tls: bool,
    pub protocol: ProtocolType,
    pub selected_field: nat,
}

/// The connection dialog.
#[derive(Debug)]
pub struct ConnectionDialog {
    server: String,
    username: String,
    password: String,
    use_tls: bool,
    protocol: ProtocolType,
    selected_field: usize,
}

impl View for ConnectionDialog {
    type V = DialogView;

    closed spec fn view(&self) -> DialogView {
        DialogView {
            server: self.server@,
            username: self.username@,
            password: self.password@,
            use_tls: self.use_tls,
            protocol: self.protocol,
            selected_field: self.selected_field as nat,
        }
    }
}

/// The text of field `f` after typing `c` there: the first three fields
/// take the character, the others ignore it.
pub open spec fn typed(d: DialogView, c: char) -> DialogView {
    if d.selected_field == 0 {
        DialogView { server: d.server.push(c), ..d }
    } else if d.selected_field == 1 {
        DialogView { username: d.username.push(c), ..d }
    } else if d.selected_field == 2 {
        DialogView { password: d.password.push(c), ..d }
    } else {
        d
    }
}

/// Drops the last character of `s`, if any.
pub open spec fn erased(s: Seq<char>) -> Seq<char> {
    if s.len() > 0 {
        s.drop_last()
    } else {
        s
    }
}

/// The dialog after a backspace: the selected text field loses its last
/// character.
pub open spec fn backspaced(d: DialogView) -> DialogView {
    if d.selected_field == 0 {
        DialogView { server: erased(d.server), ..d }
    } else if d.selected_field == 1 {
        DialogView { username: erased(d.username), ..d }
    } else if d.selected_field == 2 {
        DialogView { password: erased(d.password), ..d }
    } else {
        d
    }
}

/// The other protocol.
pub open spec fn other_protocol(p: ProtocolType) -> ProtocolType {
    match p {
        ProtocolType::Ftp => ProtocolType::Ftps,
        ProtocolType::Ftps => ProtocolType::Ftp,
    }
}

impl ConnectionDialog {
    /// The cursor is always on one of the five fields.
    #[verifier::type_invariant]
    spec fn cursor_in_range(self) -> bool {
        self.selected_field < 5
    }

    /// An empty dialog for plain FTP, the cursor on the server field.
    pub fn new() -> (r: Self)
        ensures
            r@ == (DialogView {
                server: Seq::empty(),
                username: Seq::empty(),
                password: Seq::empty(),
                use_tls: false,
                protocol: ProtocolType::Ftp,
                selected_field: 0,
            }),
    {
        ConnectionDialog {
            server: String::new(),
            username: String::new(),
            password: String::new(),
            use_tls: false,
            protocol: ProtocolType::Ftp,
            selected_field: 0,
        }
    }

    pub fn server(&self) -> (r: &str)
        ensures
            r@ == self@.server,
    {
        self.server.as_str()
    }

    pub fn username(&self) -> (r: &str)
        ensures
            r@ == self@.username,
    {
        self.username.as_str()
    }

    pub fn password(&self) -> (r: &str)
        ensures
            r@ == self@.password,
    {
        self.password.as_str()
    }

    pub fn use_tls(&self) -> (r: bool)
        ensures
            r == self@.use_tls,
    {
        self.use_tls
    }

    pub fn protocol(&self) -> (r: &ProtocolType)
        ensures
            *r == self@.protocol,
    {
        &self.protocol
    }

    pub fn selected_field(&self) -> (r: usize)
        ensures
            r == self@.selected_field,
            r < field_count(),
    {
        proof {
            use_type_invariant(self);
        }
        self.selected_field
    }

    /// Server, user name and password are all filled in.
    pub fn is_complete(&self) -> (r: bool)
        ensures
            r == (self@.server.len() > 0 && self@.username.len() > 0 && self@.password.len() > 0),
    {
        chars_of(self.server.as_str()).len() > 0 && chars_of(self.username.as_str()).len() > 0
            && chars_of(self.password.as_str()).len() > 0
    }

    /// Moves the cursor to the next field, from the last back to the first.
    pub fn next_field(&mut self)
        ensures
            final(self)@ == (DialogView {
                selected_field: field_after(old(self)@.selected_field),
                ..old(self)@
            }),
    {
        proof {
            use_type_invariant(&*self);
        }
        self.selected_field = (self.selected_field + 1) % 5;
    }

    /// Moves the cursor to the previous field, from the first to the last.
    pub fn prev_field(&mut self)
        ensures
            final(self)@ == (DialogView {
                selected_field: field_before(old(self)@.selected_field),
                ..old(self)@
            }),
    {
        proof {
            use_type_invariant(&*self);
        }
        self.selected_field = (self.selected_field + 4) % 5;
    }

    /// Types `c` into the selected text field.
    pub fn input_char(&mut self, c: char)
        ensures
            final(self)@ == typed(old(self)@, c),
    {
        proof {
            use_type_invariant(&*self);
        }
        if self.selected_field == 0 {
            let mut t = self.server.clone();
            string_push(&mut t, c);
            self.server = t;
        } else if self.selected_field == 1 {
            let mut t = self.username.clone();
            string_push(&mut t, c);
            self.username = t;
        } else if self.selected_field == 2 {
            let mut t = self.password.clone();
            string_push(&mut t, c);
            self.password = t;
        }
    }

    /// Erases the last character of the selected text field.
    pub fn backspace(&mut self)
        ensures
            final(self)@ == backspaced(old(self)@),
    {
        proof {
            use_type_invariant(&*self);
        }
        if self.selected_field == 0 {
            let mut t = self.server.clone();
            let _ = string_pop(&mut t);
            self.server = t;
        } else if self.selected_field == 1 {
            let mut t = self.username.clone();
            let _ = string_pop(&mut t);
            self.username = t;
        } else if self.selected_field == 2 {
            let mut t = self.password.clone();
            let _ = string_pop(&mut t);
            self.password = t;
        }
    }

    /// Flips the TLS option.
    pub fn toggle_tls(&mut self)
        ensures
            final(self)@ == (DialogView { use_tls: !old(self)@.use_tls, ..old(self)@ }),
    {
        proof {
            use_type_invariant(&*self);
        }
        self.use_tls = !self.use_tls;
    }

    /// Chooses `protocol`.
    pub fn select_protocol(&mut self, protocol: ProtocolType)
        ensures
            final(self)@ == (DialogView { protocol: protocol, ..old(self)@ }),
    {
        proof {
            use_type_invariant(&*self);
        }
        self.protocol = protocol;
    }

    /// Switches between FTP and FTPS.
    pub fn cycle_protocol(&mut self)
        ensures
            final(self)@ == (DialogView { protocol: other_protocol(old(self)@.protocol), ..old(self)@ }),
    {
        proof {
            use_type_invariant(&*self);
        }
        self.protocol = match self.protocol {
            ProtocolType::Ftp => ProtocolType::Ftps,
            ProtocolType::Ftps => ProtocolType::Ftp,
        };
    }
}

impl Clone for ConnectionDialog {
    fn clone(&self) -> (r: Self)
        ensures
            r == *self,
    {
        proof {
            use_type_invariant(self);
        }
        ConnectionDialog {
            server: self.server.clone(),
            username: self.username.clone(),
            password: self.password.clone(),
            use_tls: self.use_tls,
            protocol: self.protocol,
            selected_field: self.selected_field,
        }
    }
}

impl Default for ConnectionDialog {
    fn default() -> (r: Self)
        ensures
            r@ == (DialogView {
                server: Seq::empty(),
                username: Seq::empty(),
                password: Seq::empty(),
                use_tls: false,
                protocol: ProtocolType::Ftp,
                selected_field: 0,
            }),
    {
        Self::new()
    }
}


/// Moving the cursor forward then back, or back then forward, leaves it
/// where it was.
pub proof fn lemma_field_moves_inverse(f: nat)
    requires
        f < field_count(),
    ensures
        field_before(field_after(f)) == f,
        field_after(field_before(f)) == f,
{
}

/// Five moves forward bring the cursor back to where it was.
pub proof fn lemma_field_cycle(f: nat)
    requires
        f < field_count(),
    ensures
        field_after(field_after(field_after(field_after(field_after(f))))) == f,
{
}

/// A backspace undoes the character just typed.
pub proof fn lemma_backspace_undoes_typing(d: DialogView, c: char)
    ensures
        backspaced(typed(d, c)) == d,
{
    assert(d.server.push(c).drop_last() == d.server);
    assert(d.username.push(c).drop_last() == d.username);
    assert(d.password.push(c).drop_last() == d.password);
}

/// Switching protocol twice gives the protocol back.
pub proof fn lemma_cycle_protocol_twice(p: ProtocolType)
    ensures
        other_protocol(other_protocol(p)) == p,
{
}

} // verus!
