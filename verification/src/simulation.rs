//! Exchange of named boolean values between the simulated aircraft systems
//! and the simulator that hosts them.

use vstd::prelude::*;

verus! {

/// The value that a name has in a sequence of (name, value) pairs: the value
/// of the first pair carrying the name, or `false` when no pair carries it.
pub open spec fn value_of(variables: Seq<(Seq<char>, bool)>, name: Seq<char>) -> bool
    decreases variables.len(),
{
    if variables.len() == 0 {
        false
    } else if variables[0].0 == name {
        variables[0].1
    } else {
        value_of(variables.drop_first(), name)
    }
}

/// Whether a sequence of (name, value) pairs holds a pair with the given name.
pub open spec fn has_name(variables: Seq<(Seq<char>, bool)>, name: Seq<char>) -> bool {
    exists|i: int| 0 <= i < variables.len() && #[trigger] variables[i].0 == name
}

/// Builds the name under which an element exchanges a value with the
/// simulator: `prefix`, then `name`, then `suffix`.
pub fn identifier(prefix: &str, name: &str, suffix: &str) -> (id: String)
    ensures
        id@ == prefix@ + name@ + suffix@,
{
    let mut id = String::from_str(prefix);
    id.append(name);
    id.append(suffix);
    id
}

/// The named values an element writes towards the simulator, in the order
/// in which they were written.
pub struct SimulatorWriter {
    variables: Vec<(String, bool)>,
}

impl View for SimulatorWriter {
    type V = Seq<(Seq<char>, bool)>;

    closed spec fn view(&self) -> Seq<(Seq<char>, bool)> {
        self.variables@.map_values(|p: (String, bool)| (p.0@, p.1))
    }
}

impl SimulatorWriter {
    pub fn new() -> (writer: SimulatorWriter)
        ensures
            writer@ == Seq::<(Seq<char>, bool)>::empty(),
    {
        let writer = SimulatorWriter { variables: Vec::new() };
        assert(writer@ =~= Seq::<(Seq<char>, bool)>::empty());
        writer
    }

    /// Records that the named value is written.
    pub fn write_bool(&mut self, name: &str, value: bool)
        ensures
            final(self)@ == old(self)@.push((name@, value)),
    {
        let ghost before = self@;
        let owned = String::from_str(name);
        self.variables.push((owned, value));
        assert(self@ =~= before.push((name@, value)));
    }

    /// Number of values written so far.
    pub fn len(&self) -> (n: usize)
        ensures
            n == self@.len(),
    {
        self.variables.len()
    }

    /// Whether a value with the given name was written.
    pub fn contains_key(&self, name: &str) -> (found: bool)
        ensures
            found == has_name(self@, name@),
    {
        let key = String::from_str(name);
        let mut i: usize = 0;
        while i < self.variables.len()
            invariant
                0 <= i <= self.variables.len(),
                key@ == name@,
                forall|j: int| 0 <= j < i ==> #[trigger] self@[j].0 != name@,
            decreases self.variables.len() - i,
        {
            if self.variables[i].0 == key {
                assert(self@[i as int].0 == name@);
                return true;
            }
            i += 1;
        }
        false
    }

    /// The value written last under the given name, or `None` when no value
    /// was written under it.
    pub fn last_value_of(&self, name: &str) -> (value: Option<bool>)
        ensures
            value.is_none() <==> !has_name(self@, name@),
            value matches Some(v) ==> exists|i: int|
                0 <= i < self@.len() && #[trigger] self@[i] == (name@, v) && forall|j: int|
                    i < j < self@.len() ==> #[trigger] self@[j].0 != name@,
    {
        let key = String::from_str(name);
        let mut i: usize = self.variables.len();
        while i > 0
            invariant
                0 <= i <= self.variables.len(),
                key@ == name@,
                forall|j: int| i <= j < self@.len() ==> #[trigger] self@[j].0 != name@,
            decreases i,
        {
            i -= 1;
            if self.variables[i].0 == key {
                let v = self.variables[i].1;
                assert(self@[i as int] == (name@, v));
                assert(self@[i as int].0 == name@);
                return Some(v);
            }
        }
        None
    }
}

/// The named values the simulator provides to the aircraft systems.
pub struct SimulatorReader {
    variables: Vec<(String, bool)>,
}

impl View for SimulatorReader {
    type V = Seq<(Seq<char>, bool)>;

    closed spec fn view(&self) -> Seq<(Seq<char>, bool)> {
        self.variables@.map_values(|p: (String, bool)| (p.0@, p.1))
    }
}

impl SimulatorReader {
    pub fn new(variables: Vec<(String, bool)>) -> (reader: SimulatorReader)
        ensures
            reader@ == variables@.map_values(|p: (String, bool)| (p.0@, p.1)),
    {
        SimulatorReader { variables }
    }

    /// Reads the named value. A name the simulator does not provide reads as `false`.
    pub fn read_bool(&self, name: &str) -> (value: bool)
        ensures
            value == value_of(self@, name@),
    {
        let key = String::from_str(name);
        let mut i: usize = 0;
        assert(self@.skip(0) =~= self@);
        while i < self.variables.len()
            invariant
                0 <= i <= self.variables.len(),
                key@ == name@,
                value_of(self@, name@) == value_of(self@.skip(i as int), name@),
            decreases self.variables.len() - i,
        {
            assert(self@.skip(i as int).drop_first() =~= self@.skip(i + 1));
            if self.variables[i].0 == key {
                return self.variables[i].1;
            }
            i += 1;
        }
        assert(self@.skip(i as int).len() == 0);
        false
    }
}

} // verus!
