use vstd::prelude::*;
use vstd::string::*;

verus! {

/// A JSON value as the protocol reads and writes it. A number is kept as its
/// JSON text, so nothing about it is lost or rounded on the way through.
#[derive(Debug)]
pub enum Json {
    Null,
    Bool(bool),
    Number(String),
    Str(String),
    Array(Vec<Json>),
    Object(Vec<(String, Json)>),
}

/// The value of the member named `key` among `members`; where a name repeats,
/// the last one counts, as when a decoder inserts the members into a map in
/// order.
pub open spec fn member_of(members: Seq<(String, Json)>, key: Seq<char>) -> Option<Json>
    decreases members.len(),
{
    if members.len() == 0 {
        None
    } else if members.last().0@ == key {
        Some(members.last().1)
    } else {
        member_of(members.drop_last(), key)
    }
}

/// The names of `members`, in order.
pub open spec fn names_of(members: Seq<(String, Json)>) -> Seq<Seq<char>> {
    members.map_values(|m: (String, Json)| m.0@)
}

impl Json {
    /// The member named `key`, if this is an object that has one.
    pub open spec fn member(self, key: Seq<char>) -> Option<Json> {
        match self {
            Json::Object(members) => member_of(members@, key),
            _ => None,
        }
    }

    /// The member names, in order, if this is an object.
    pub open spec fn keys(self) -> Option<Seq<Seq<char>>> {
        match self {
            Json::Object(members) => Some(names_of(members@)),
            _ => None,
        }
    }

    /// The characters of this value if it is a string.
    pub open spec fn text(self) -> Option<Seq<char>> {
        match self {
            Json::Str(s) => Some(s@),
            _ => None,
        }
    }

    /// Whether this is the JSON number whose text is `t`.
    pub open spec fn is_number_text(self, t: Seq<char>) -> bool {
        self matches Json::Number(n) && n@ == t
    }

    /// The member named `key`, if this is an object that has one.
    pub fn get(&self, key: &str) -> (r: Option<&Json>)
        ensures
            match r {
                Some(v) => self.member(key@) == Some(*v),
                None => self.member(key@) is None,
            },
    {
        match self {
            Json::Object(members) => {
                let wanted = String::from_str(key);
                let mut i: usize = members.len();
                assert(members@.subrange(0, i as int) =~= members@);
                while i > 0
                    invariant
                        i <= members@.len(),
                        wanted@ == key@,
                        self.member(key@) == member_of(members@, key@),
                        member_of(members@, key@) == member_of(members@.subrange(0, i as int), key@),
                    decreases i,
                {
                    let prefix = Ghost(members@.subrange(0, i as int));
                    assert(prefix@.drop_last() =~= members@.subrange(0, i - 1));
                    assert(prefix@.last() == members@[i - 1]);
                    if members[i - 1].0 == wanted {
                        return Some(&members[i - 1].1);
                    }
                    i = i - 1;
                }
                assert(members@.subrange(0, 0) =~= Seq::<(String, Json)>::empty());
                None
            },
            _ => None,
        }
    }

    /// The string inside this value, if it is a JSON string.
    pub fn as_str(&self) -> (r: Option<&String>)
        ensures
            match r {
                Some(s) => self.text() == Some(s@),
                None => self.text() is None,
            },
    {
        match self {
            Json::Str(s) => Some(s),
            _ => None,
        }
    }
}

/// Appends the member `name` with `value` to the members of an object under
/// construction.
pub fn push_member(members: &mut Vec<(String, Json)>, name: &str, value: Json)
    ensures
        names_of(final(members)@) == names_of(old(members)@).push(name@),
        forall|key: Seq<char>|
            #[trigger] member_of(final(members)@, key) == if key == name@ {
                Some(value)
            } else {
                member_of(old(members)@, key)
            },
{
    let ghost before = members@;
    members.push((String::from_str(name), value));
    proof {
        assert(members@.drop_last() =~= before);
        assert(names_of(members@) =~= names_of(before).push(name@));
    }
}

/// An object has no members before the first is pushed.
pub proof fn lemma_no_members()
    ensures
        names_of(Seq::<(String, Json)>::empty()) == Seq::<Seq<char>>::empty(),
        forall|key: Seq<char>| #[trigger] member_of(Seq::<(String, Json)>::empty(), key) is None,
{
    assert(names_of(Seq::<(String, Json)>::empty()) =~= Seq::<Seq<char>>::empty());
}

/// A JSON string holding a copy of `s`.
pub fn string_json(s: &String) -> (r: Json)
    ensures
        r == Json::Str(*s),
        r.text() == Some(s@),
{
    Json::Str(s.clone())
}

/// A JSON array of strings, one for each item of `items`, in order.
pub fn string_array_json(items: &Vec<String>) -> (r: Json)
    ensures
        r matches Json::Array(a) && a@.len() == items@.len()
            && forall|i: int| 0 <= i < items@.len() ==> #[trigger] a@[i].text() == Some(items@[i]@),
{
    let mut out: Vec<Json> = Vec::new();
    let mut i: usize = 0;
    while i < items.len()
        invariant
            i <= items@.len(),
            out@.len() == i,
            forall|j: int| 0 <= j < i ==> #[trigger] out@[j].text() == Some(items@[j]@),
        decreases items@.len() - i,
    {
        out.push(string_json(&items[i]));
        i = i + 1;
    }
    Json::Array(out)
}

} // verus!
