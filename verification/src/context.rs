//! Evaluation frames: a named scope with its variable bindings and a link
//! to the scope that entered it.

use crate::number::{Number, NumberType, NumberTypeView, NumberView};
use crate::position::{clone_position, view_opt, Position, PositionView};
use crate::symbols::{bound, find, slot_by_names, slot_found, SymbolMap};
use vstd::prelude::*;

verus! {

/// One evaluation frame.
#[derive(Debug, PartialEq)]
pub struct Context {
    pub display_name: String,
    pub parent: Option<Box<Context>>,
    pub parent_pos: Option<Position>,
    pub symbol_map: Option<SymbolMap<NumberType>>,
}

/// The mathematical value of a [`Context`]. The bindings are in the order
/// in which the names were first bound.
pub ghost struct ContextView {
    pub display_name: Seq<char>,
    pub parent: Option<Box<ContextView>>,
    pub parent_pos: Option<PositionView>,
    pub symbols: Option<Seq<(Seq<char>, NumberTypeView)>>,
}

/// The value of a frame.
pub open spec fn context_view(c: Context) -> ContextView
    decreases c, 2int,
{
    ContextView {
        display_name: c.display_name@,
        parent: match c.parent {
            Some(p) => Some(Box::new(context_view(*p))),
            None => None,
        },
        parent_pos: view_opt(c.parent_pos),
        symbols: match c.symbol_map {
            Some(m) => Some(entries_view(m.symbols@)),
            None => None,
        },
    }
}

/// The value of a list of bindings.
pub open spec fn entries_view(s: Seq<(String, NumberType)>) -> Seq<(Seq<char>, NumberTypeView)>
    decreases s, 1int,
{
    if s.len() == 0 {
        Seq::empty()
    } else {
        entries_view(s.drop_last()).push((s.last().0@, number_type_view(s.last().1)))
    }
}

/// The value of a tagged number.
pub open spec fn number_type_view(n: NumberType) -> NumberTypeView
    decreases n, 1int,
{
    match n {
        NumberType::Integer(x) => NumberTypeView::Integer(number_view(x)),
        NumberType::Float(x) => NumberTypeView::Float(number_view(x)),
    }
}

/// The value of a number.
pub open spec fn number_view<T>(n: Number<T>) -> NumberView<T>
    decreases n, 0int,
{
    NumberView {
        value: n.value,
        pos_start: view_opt(n.pos_start),
        pos_end: view_opt(n.pos_end),
        context: match n.context {
            Some(c) => Some(context_view(c)),
            None => None,
        },
    }
}

impl View for Context {
    type V = ContextView;

    open spec fn view(&self) -> ContextView {
        context_view(*self)
    }
}

/// The value of a list of bindings has one entry for each binding.
pub proof fn entries_view_index(s: Seq<(String, NumberType)>)
    ensures
        entries_view(s).len() == s.len(),
        forall|i: int|
            0 <= i < s.len() ==> (#[trigger] entries_view(s)[i]) == (s[i].0@, s[i].1@),
    decreases s.len(),
{
    if s.len() > 0 {
        entries_view_index(s.drop_last());
    }
}

/// Every frame that has a parent also has the position at which it was
/// entered, and the same holds of the parent.
pub open spec fn linked(c: ContextView) -> bool
    decreases c,
{
    match c.parent {
        Some(p) => c.parent_pos is Some && linked(*p),
        None => true,
    }
}

impl Context {
    /// A frame made of the parts given.
    pub fn new(
        display_name: &str,
        parent: Option<Box<Context>>,
        parent_pos: Option<Position>,
        symbol_map: Option<SymbolMap<NumberType>>,
    ) -> (r: Self)
        ensures
            r.display_name@ == display_name@,
            r.parent == parent,
            r.parent_pos == parent_pos,
            r.symbol_map == symbol_map,
    {
        Self { display_name: display_name.to_owned(), parent, parent_pos, symbol_map }
    }

    /// The root frame: no parent, and no bindings yet.
    pub fn init(display_name: &str) -> (r: Self)
        ensures
            r@ == (ContextView {
                display_name: display_name@,
                parent: None,
                parent_pos: None,
                symbols: None,
            }),
            linked(r@),
    {
        Self {
            display_name: display_name.to_owned(),
            parent: None,
            parent_pos: None,
            symbol_map: None,
        }
    }

    /// Every frame of the chain but the root has the position at which it
    /// was entered.
    pub open spec fn well_formed(&self) -> bool {
        linked(self@)
    }

    /// Whether every frame of the chain but the root has the position at
    /// which it was entered.
    pub fn is_linked(&self) -> (r: bool)
        ensures
            r == self.well_formed(),
        decreases self,
    {
        match &self.parent {
            Some(p) => self.parent_pos.is_some() && p.is_linked(),
            None => true,
        }
    }

    /// A copy of the frame's name.
    pub fn display_name(&self) -> (r: String)
        ensures
            r@ == self@.display_name,
    {
        self.display_name.clone()
    }

    /// A copy of the frame that entered this one.
    pub fn parent(&self) -> (r: Option<Box<Context>>)
        ensures
            match r {
                Some(p) => self@.parent == Some(Box::new(p@)),
                None => self@.parent is None,
            },
        decreases self, 1int,
    {
        match &self.parent {
            Some(p) => Some(Box::new(p.duplicate())),
            None => None,
        }
    }

    /// A copy of the position at which the frame was entered.
    pub fn parent_pos(&self) -> (r: Option<Position>)
        ensures
            view_opt(r) == self@.parent_pos,
    {
        clone_position(&self.parent_pos)
    }

    /// A copy of the frame's bindings.
    pub fn symbol_map(&self) -> (r: Option<SymbolMap<NumberType>>)
        ensures
            match r {
                Some(m) => self@.symbols == Some(entries_view(m.symbols@)),
                None => self@.symbols is None,
            },
        decreases self, 1int,
    {
        match &self.symbol_map {
            Some(m) => Some(SymbolMap { symbols: duplicate_entries(&m.symbols) }),
            None => None,
        }
    }

    /// Gives the frame the bindings `symbol_map`, in place of those it had.
    pub fn set_symbol_map(&mut self, symbol_map: SymbolMap<NumberType>)
        ensures
            final(self)@ == (ContextView {
                symbols: Some(entries_view(symbol_map.symbols@)),
                ..old(self)@
            }),
    {
        self.symbol_map = Some(symbol_map);
    }

    /// A copy of the value bound to `name` in this frame; nothing where the
    /// frame has no bindings or does not bind the name.
    pub fn get_symbol(&self, name: String) -> (r: Option<NumberType>)
        ensures
            match r {
                Some(v) => self@.symbols is Some && find(self@.symbols->0, name@) == Some(v@),
                None => self@.symbols is None || find(self@.symbols->0, name@) is None,
            },
    {
        let ghost key = name@;
        match &self.symbol_map {
            Some(m) => {
                proof {
                    entries_view_index(m.symbols@);
                    slot_by_names(entries_view(m.symbols@), m.bindings(), key);
                    slot_found(m.bindings(), key);
                }
                match m.get(name) {
                    Some(v) => Some(v.duplicate()),
                    None => None,
                }
            },
            None => None,
        }
    }

    /// Binds `name` to `value` in this frame, in place of an earlier
    /// binding of the name.
    pub fn set_symbol(&mut self, name: String, value: NumberType)
        requires
            old(self).symbol_map is Some,
        ensures
            final(self)@ == (ContextView {
                symbols: Some(bound(old(self)@.symbols->0, name@, value@)),
                ..old(self)@
            }),
    {
        let ghost key = name@;
        let ghost worth = value@;
        let mut map = self.symbol_map.take().unwrap();
        let ghost before = map.symbols@;
        proof {
            entries_view_index(before);
            slot_by_names(entries_view(before), map.bindings(), key);
            slot_found(map.bindings(), key);
        }
        let ghost held = map.bindings();
        map.set(name, value);
        proof {
            let now = map.bindings();
            let goal = bound(entries_view(before), key, worth);
            entries_view_index(map.symbols@);
            assert(now == bound(held, key, value));
            assert(entries_view(map.symbols@).len() == goal.len());
            assert forall|i: int| 0 <= i < goal.len() implies entries_view(map.symbols@)[i]
                == goal[i] by {
                assert(now[i] == (map.symbols@[i].0@, map.symbols@[i].1));
                if i < held.len() {
                    assert(held[i] == (before[i].0@, before[i].1));
                }
            }
            assert(entries_view(map.symbols@) =~= goal);
        }
        self.symbol_map = Some(map);
    }

    /// A copy of the frame, with its whole chain of parents and all its
    /// bindings.
    pub fn duplicate(&self) -> (r: Self)
        ensures
            r@ == self@,
        decreases self, 2int,
    {
        Context {
            display_name: self.display_name.clone(),
            parent: match &self.parent {
                Some(p) => Some(Box::new(p.duplicate())),
                None => None,
            },
            parent_pos: clone_position(&self.parent_pos),
            symbol_map: match &self.symbol_map {
                Some(m) => Some(SymbolMap { symbols: duplicate_entries(&m.symbols) }),
                None => None,
            },
        }
    }
}

/// A copy of a list of bindings.
pub fn duplicate_entries(v: &Vec<(String, NumberType)>) -> (r: Vec<(String, NumberType)>)
    ensures
        entries_view(r@) == entries_view(v@),
    decreases v, 1int,
{
    let mut out: Vec<(String, NumberType)> = Vec::new();
    let mut i: usize = 0;
    while i < v.len()
        invariant
            i <= v.len(),
            entries_view(out@) == entries_view(v@.subrange(0, i as int)),
        decreases v.len() - i,
    {
        let entry = &v[i];
        let copy = (entry.0.clone(), entry.1.duplicate());
        let ghost before = out@;
        out.push(copy);
        proof {
            let next = v@.subrange(0, i + 1);
            assert(next.drop_last() == v@.subrange(0, i as int));
            assert(next.last() == v@[i as int]);
            assert(out@.drop_last() == before);
        }
        i += 1;
    }
    assert(v@.subrange(0, v.len() as int) == v@);
    out
}

impl Clone for Context {
    fn clone(&self) -> (r: Self)
        ensures
            r@ == self@,
    {
        self.duplicate()
    }
}

} // verus!
