//! Atoms: the tagged values, number or symbol, that the engine's lists and
//! messages carry, and their form inside the engine.
//!
//! A number is held as the bit pattern of the IEEE-754 double the engine
//! stores, so that it passes through unchanged.

use vstd::prelude::*;

verus! {

/// The engine's tag for a number atom.
pub const A_FLOAT: i32 = 1;

/// The engine's tag for a symbol atom.
pub const A_SYMBOL: i32 = 2;

/// A value in a list exchanged with the engine.
#[derive(Clone, Debug, PartialEq, Eq)]
pub enum Atom {
    /// A number, as the bits of an IEEE-754 double.
    Float(u64),
    /// A symbol.
    Symbol(String),
}

/// An atom as a mathematical value.
pub enum AtomView {
    Float(u64),
    Symbol(Seq<char>),
}

impl View for Atom {
    type V = AtomView;

    open spec fn view(&self) -> AtomView {
        match self {
            Atom::Float(bits) => AtomView::Float(*bits),
            Atom::Symbol(s) => AtomView::Symbol(s@),
        }
    }
}

/// An atom as the engine holds it: a type tag, and the number or the text
/// that goes with it. The number is meaningful for a number atom only, the
/// text for a symbol atom only.
#[derive(Clone, Debug, PartialEq, Eq)]
pub struct RawAtom {
    pub tag: i32,
    pub number: u64,
    pub text: Option<String>,
}

pub struct RawAtomView {
    pub tag: i32,
    pub number: u64,
    pub text: Option<Seq<char>>,
}

impl View for RawAtom {
    type V = RawAtomView;

    open spec fn view(&self) -> RawAtomView {
        RawAtomView {
            tag: self.tag,
            number: self.number,
            text: match self.text {
                Some(t) => Some(t@),
                None => None,
            },
        }
    }
}

/// The engine form of an atom.
pub open spec fn encode(a: AtomView) -> RawAtomView {
    match a {
        AtomView::Float(bits) => RawAtomView { tag: A_FLOAT, number: bits, text: None },
        AtomView::Symbol(s) => RawAtomView { tag: A_SYMBOL, number: 0, text: Some(s) },
    }
}

/// The atom an engine atom stands for: `None` for a tag other than number
/// or symbol, or a symbol without text.
pub open spec fn decode(r: RawAtomView) -> Option<AtomView> {
    if r.tag == A_FLOAT {
        Some(AtomView::Float(r.number))
    } else if r.tag == A_SYMBOL {
        match r.text {
            Some(t) => Some(AtomView::Symbol(t)),
            None => None,
        }
    } else {
        None
    }
}

/// The atoms a list of engine atoms stands for, or `None` when one of them
/// stands for none.
pub open spec fn decode_all(raws: Seq<RawAtomView>) -> Option<Seq<AtomView>> {
    if forall|i: int| 0 <= i < raws.len() ==> (#[trigger] decode(raws[i])) is Some {
        Some(raws.map_values(|r: RawAtomView| decode(r)->Some_0))
    } else {
        None
    }
}

pub open spec fn views(atoms: Seq<Atom>) -> Seq<AtomView> {
    atoms.map_values(|a: Atom| a@)
}

pub open spec fn raw_views(raws: Seq<RawAtom>) -> Seq<RawAtomView> {
    raws.map_values(|r: RawAtom| r@)
}

impl Atom {
    /// The engine form of this atom.
    pub fn to_raw(&self) -> (r: RawAtom)
        ensures
            r@ == encode(self@),
    {
        match self {
            Atom::Float(bits) => RawAtom { tag: A_FLOAT, number: *bits, text: None },
            Atom::Symbol(s) => RawAtom { tag: A_SYMBOL, number: 0, text: Some(s.clone()) },
        }
    }

    /// The atom `raw` stands for, if any.
    pub fn from_raw(raw: &RawAtom) -> (r: Option<Atom>)
        ensures
            match r {
                Some(a) => decode(raw@) == Some(a@),
                None => decode(raw@) is None,
            },
    {
        if raw.tag == A_FLOAT {
            Some(Atom::Float(raw.number))
        } else if raw.tag == A_SYMBOL {
            match &raw.text {
                Some(t) => Some(Atom::Symbol(t.clone())),
                None => None,
            }
        } else {
            None
        }
    }

    /// Whether this atom is a number.
    pub fn is_float(&self) -> (r: bool)
        ensures
            r == (self@ is Float),
    {
        match self {
            Atom::Float(_) => true,
            Atom::Symbol(_) => false,
        }
    }
}

/// How many atoms to read from a list whose length the engine reported as
/// `reported`. The engine is trusted, but a negative length is read as
/// an empty list rather than as a huge one.
pub fn list_length(reported: i32) -> (r: usize)
    ensures
        reported >= 0 ==> r == reported,
        reported < 0 ==> r == 0,
{
    if reported < 0 {
        0
    } else {
        reported as usize
    }
}

/// The engine form of each atom of `atoms`, in order.
pub fn raws_from_atoms(atoms: &Vec<Atom>) -> (r: Vec<RawAtom>)
    ensures
        raw_views(r@) == views(atoms@).map_values(|a: AtomView| encode(a)),
{
    let mut r: Vec<RawAtom> = Vec::new();
    let mut i: usize = 0;
    while i < atoms.len()
        invariant
            i <= atoms@.len(),
            r@.len() == i,
            forall|j: int| 0 <= j < i ==> (#[trigger] r@[j])@ == encode(atoms@[j]@),
        decreases atoms@.len() - i,
    {
        let raw = atoms[i].to_raw();
        r.push(raw);
        i = i + 1;
    }
    assert(raw_views(r@) =~= views(atoms@).map_values(|a: AtomView| encode(a)));
    r
}

/// The atoms that a list of engine atoms stands for, in order; `None` when
/// one of them stands for no atom.
pub fn atoms_from_raw(raws: &Vec<RawAtom>) -> (r: Option<Vec<Atom>>)
    ensures
        match r {
            Some(atoms) => decode_all(raw_views(raws@)) == Some(views(atoms@)),
            None => decode_all(raw_views(raws@)) is None,
        },
{
    let mut out: Vec<Atom> = Vec::new();
    let mut i: usize = 0;
    while i < raws.len()
        invariant
            i <= raws@.len(),
            out@.len() == i,
            forall|j: int| 0 <= j < i ==> decode(#[trigger] raws@[j]@) == Some(out@[j]@),
        decreases raws@.len() - i,
    {
        match Atom::from_raw(&raws[i]) {
            Some(a) => {
                out.push(a);
            },
            None => {
                assert(!(decode(raw_views(raws@)[i as int]) is Some));
                return None;
            },
        }
        i = i + 1;
    }
    assert(views(out@) =~= raw_views(raws@).map_values(
        |r: RawAtomView| decode(r)->Some_0,
    ));
    Some(out)
}

/// Round trip of an atom list: the engine form of a list of atoms, read
/// back element by element, gives the same atoms in the same order.
pub proof fn lemma_list_round_trip(atoms: Seq<AtomView>)
    ensures
        decode_all(atoms.map_values(|a: AtomView| encode(a))) == Some(atoms),
{
    let raws = atoms.map_values(|a: AtomView| encode(a));
    assert forall|i: int| 0 <= i < raws.len() implies (#[trigger] decode(raws[i])) is Some by {
        assert(raws[i] == encode(atoms[i]));
    }
    assert(raws.map_values(|r: RawAtomView| decode(r)->Some_0) =~= atoms);
}

} // verus!
