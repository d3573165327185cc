//! Named text parameters, as a connector is configured with them, and
//! secrets, which are such parameters kept apart.

use vstd::hash_map::StringHashMap;
use vstd::prelude::*;

verus! {

/// Text values by name. A name has at most one value.
pub struct Parameters {
    values: StringHashMap<String>,
}

impl View for Parameters {
    type V = Map<Seq<char>, Seq<char>>;

    /// The value of each name that has one.
    closed spec fn view(&self) -> Map<Seq<char>, Seq<char>> {
        self.values@.map_values(|value: String| value@)
    }
}

/// The value of `name` in `parameters`, and the empty text where there are
/// no parameters or none of that name.
pub open spec fn value_or_empty(
    parameters: Option<Map<Seq<char>, Seq<char>>>,
    name: Seq<char>,
) -> Seq<char> {
    match parameters {
        Some(values) if values.contains_key(name) => values[name],
        _ => Seq::<char>::empty(),
    }
}

/// The views of optional parameters.
pub open spec fn views(parameters: Option<&Parameters>) -> Option<Map<Seq<char>, Seq<char>>> {
    match parameters {
        Some(values) => Some(values@),
        None => None,
    }
}

impl Parameters {
    /// No parameters.
    pub fn new() -> (parameters: Self)
        ensures
            parameters@ == Map::<Seq<char>, Seq<char>>::empty(),
    {
        let parameters = Parameters { values: StringHashMap::new() };
        assert(parameters@ =~= Map::<Seq<char>, Seq<char>>::empty());
        parameters
    }

    /// Gives `name` the value `value`, in place of the one it had.
    pub fn insert(&mut self, name: String, value: String)
        ensures
            final(self)@ == old(self)@.insert(name@, value@),
    {
        self.values.insert(name, value);
        assert(self@ =~= old(self)@.insert(name@, value@));
    }

    /// The value of `name`, where it has one.
    pub fn get(&self, name: &str) -> (value: Option<&str>)
        ensures
            value is Some <==> self@.contains_key(name@),
            value matches Some(text) ==> text@ == self@[name@],
    {
        match self.values.get(name) {
            Some(text) => Some(text.as_str()),
            None => None,
        }
    }

    /// The value of `name` in `parameters`, copied, and the empty text
    /// where there are no parameters or none of that name.
    pub fn get_or_default(parameters: Option<&Parameters>, name: &str) -> (value: String)
        ensures
            value@ == value_or_empty(views(parameters), name@),
    {
        match parameters {
            Some(values) => match values.get(name) {
                Some(text) => String::from_str(text),
                None => String::new(),
            },
            None => String::new(),
        }
    }
}

/// The credentials of one connector: text values by name.
pub struct Secret {
    data: Parameters,
}

impl View for Secret {
    type V = Map<Seq<char>, Seq<char>>;

    closed spec fn view(&self) -> Map<Seq<char>, Seq<char>> {
        self.data@
    }
}

impl Secret {
    /// The secret that holds `data`.
    pub fn new(data: Parameters) -> (secret: Self)
        ensures
            secret@ == data@,
    {
        Secret { data }
    }

    /// The value of `name`, where the secret has one.
    pub fn get(&self, name: &str) -> (value: Option<&str>)
        ensures
            value is Some <==> self@.contains_key(name@),
            value matches Some(text) ==> text@ == self@[name@],
    {
        self.data.get(name)
    }
}

} // verus!
