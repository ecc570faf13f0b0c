use vstd::prelude::*;

verus! {

/// A failure reported by a connected server.
#[derive(Debug)]
pub struct GenericError {
    pub message: String,
}

/// A request to send players to a server.
#[derive(Debug)]
pub struct SendRequest {
    pub players: Vec<String>,
    pub server: String,
}

/// The announcement that a server was registered or unregistered.
#[derive(Debug)]
pub struct RegisterServerRequest {
    pub register: bool,
    pub server_type: String,
    pub identifier: String,
    pub host: String,
    pub port: u16,
}

/// A send request as a mathematical value.
pub struct SendRequestView {
    pub players: Seq<Seq<char>>,
    pub server: Seq<char>,
}

/// A registration announcement as a mathematical value.
pub struct RegisterServerRequestView {
    pub register: bool,
    pub server_type: Seq<char>,
    pub identifier: Seq<char>,
    pub host: Seq<char>,
    pub port: u16,
}

/// The characters of each string of a list.
pub open spec fn strings_view(v: Seq<String>) -> Seq<Seq<char>> {
    v.map_values(|s: String| s@)
}

impl View for GenericError {
    type V = Seq<char>;

    open spec fn view(&self) -> Seq<char> {
        self.message@
    }
}

impl View for SendRequest {
    type V = SendRequestView;

    open spec fn view(&self) -> SendRequestView {
        SendRequestView { players: strings_view(self.players@), server: self.server@ }
    }
}

impl View for RegisterServerRequest {
    type V = RegisterServerRequestView;

    open spec fn view(&self) -> RegisterServerRequestView {
        RegisterServerRequestView {
            register: self.register,
            server_type: self.server_type@,
            identifier: self.identifier@,
            host: self.host@,
            port: self.port,
        }
    }
}

/// A copy of a list of strings, element by element.
pub fn clone_strings(v: &Vec<String>) -> (r: Vec<String>)
    ensures
        r@ == v@,
{
    let mut r: Vec<String> = Vec::new();
    let mut i: usize = 0;
    while i < v.len()
        invariant
            i <= v.len(),
            r@ == v@.subrange(0, i as int),
        decreases v.len() - i,
    {
        r.push(v[i].clone());
        i = i + 1;
    }
    r
}

impl Clone for GenericError {
    fn clone(&self) -> (r: Self)
        ensures
            r@ == self@,
    {
        GenericError { message: self.message.clone() }
    }
}

impl Clone for SendRequest {
    fn clone(&self) -> (r: Self)
        ensures
            r@ == self@,
    {
        SendRequest { players: clone_strings(&self.players), server: self.server.clone() }
    }
}

impl Clone for RegisterServerRequest {
    fn clone(&self) -> (r: Self)
        ensures
            r@ == self@,
    {
        RegisterServerRequest {
            register: self.register,
            server_type: self.server_type.clone(),
            identifier: self.identifier.clone(),
            host: self.host.clone(),
            port: self.port,
        }
    }
}

} // verus!
