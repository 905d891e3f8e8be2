//! The bootstrap object and the objects it hands out by name and by age.
use vstd::prelude::*;

use crate::counter::{CounterImpl, NaiveCounterImpl};
use crate::text::{age_desc, age_description};

verus! {

/// The name that `QuxImpl::calc` answers for `name` and `age`: the name,
/// then the age's description in round brackets.
pub open spec fn calc_name(name: Seq<char>, age: u16) -> Seq<char> {
    name + seq!['('] + age_desc(age) + seq![')']
}

/// The name that `calc` answers starts with the name it was given, and ends
/// with "(Adult)" when the age is at least 18 and with "(Child)" otherwise.
pub proof fn lemma_calc_name_shape(name: Seq<char>, age: u16)
    ensures
        calc_name(name, age).len() == name.len() + 7,
        calc_name(name, age).subrange(0, name.len() as int) == name,
        calc_name(name, age).skip(name.len() as int) == (if age >= 18 {
            seq!['(', 'A', 'd', 'u', 'l', 't', ')']
        } else {
            seq!['(', 'C', 'h', 'i', 'l', 'd', ')']
        }),
{
    assert(calc_name(name, age).subrange(0, name.len() as int) =~= name);
    assert(calc_name(name, age).skip(name.len() as int) =~= (if age >= 18 {
        seq!['(', 'A', 'd', 'u', 'l', 't', ')']
    } else {
        seq!['(', 'C', 'h', 'i', 'l', 'd', ')']
    }));
}

/// The bootstrap object: it makes the other objects on request.
pub struct FooImpl;

impl FooImpl {
    pub fn new() -> (foo: Self) {
        FooImpl
    }

    /// A `BarImpl` that holds `name`.
    pub fn get_bar(&self, name: &str) -> (bar: BarImpl)
        ensures
            bar@ == name@,
    {
        BarImpl::new(name)
    }

    /// A `BazImpl` that holds `age`.
    pub fn get_baz(&self, age: u16) -> (baz: BazImpl)
        ensures
            baz@ == age,
    {
        BazImpl::new(age)
    }

    /// A fresh counter that answers "exists" up to `limit`.
    pub fn get_counter(&self, limit: u16) -> (counter: CounterImpl)
        ensures
            counter.limit() == limit,
            counter.count() == 0,
    {
        CounterImpl::new(limit)
    }

    /// A fresh plain counter that answers "exists" up to `limit`.
    pub fn get_naive_counter(&self, limit: u16) -> (counter: NaiveCounterImpl)
        ensures
            counter.limit() == limit,
            counter.count() == 0,
    {
        NaiveCounterImpl::new(limit)
    }
}

/// An object that holds a name.
pub struct BarImpl {
    name: String,
}

impl View for BarImpl {
    type V = Seq<char>;

    closed spec fn view(&self) -> Seq<char> {
        self.name@
    }
}

impl BarImpl {
    pub fn new(name: &str) -> (bar: Self)
        ensures
            bar@ == name@,
    {
        BarImpl { name: name.to_owned() }
    }

    /// The name it holds.
    pub fn read_val(&self) -> (val: String)
        ensures
            val@ == self@,
    {
        self.name.clone()
    }
}

/// An object that holds an age.
pub struct BazImpl {
    age: u16,
}

impl View for BazImpl {
    type V = u16;

    closed spec fn view(&self) -> u16 {
        self.age
    }
}

impl BazImpl {
    pub fn new(age: u16) -> (baz: Self)
        ensures
            baz@ == age,
    {
        BazImpl { age }
    }

    /// The age it holds.
    pub fn read_val(&self) -> (val: u16)
        ensures
            val == self@,
    {
        self.age
    }
}

/// An object that joins a name and an age into one answer.
#[derive(Clone, Copy)]
pub struct QuxImpl;

impl QuxImpl {
    pub fn new() -> (qux: Self) {
        QuxImpl
    }

    /// The age unchanged, and the name followed by "(Adult)" or "(Child)".
    pub fn calc(&self, name: &str, age: u16) -> (res: (String, u16))
        ensures
            res.0@ == calc_name(name@, age),
            res.1 == age,
    {
        proof {
            reveal_strlit("(");
            reveal_strlit(")");
        }
        let desc = age_description(age);
        let mut out = name.to_owned();
        out.append("(");
        out.append(desc);
        out.append(")");
        (out, age)
    }
}

} // verus!
