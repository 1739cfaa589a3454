//! The previous and current value of one watched memory location.
use vstd::prelude::*;

verus! {

/// Two successive readings of one location.
#[derive(Clone, Copy, Debug)]
pub struct Observation<T> {
    pub previous: T,
    pub current: T,
}

impl<T> Observation<T> {
    /// `p` holds now and did not hold on the reading before.
    pub open spec fn rose(self, p: spec_fn(T) -> bool) -> bool {
        p(self.current) && !p(self.previous)
    }
}

impl<T: Copy> Observation<T> {
    /// Edge test: `pred` holds of `current` and not of `previous`.
    /// `previous` is tested only where `current` passed.
    pub fn check<F: Fn(&T) -> bool>(&self, pred: F) -> (r: bool)
        requires
            forall|t: &T| pred.requires((t,)),
        ensures
            r ==> pred.ensures((&self.current,), true) && pred.ensures((&self.previous,), false),
            !r ==> pred.ensures((&self.current,), false) || pred.ensures((&self.previous,), true),
    {
        pred(&self.current) && !pred(&self.previous)
    }
}

/// What a successful read of `value` makes of the observation `o`: the old
/// current value becomes the previous one; on the first read both are `value`.
pub open spec fn after_read<T>(o: Option<Observation<T>>, value: T) -> Observation<T> {
    match o {
        Some(o) => Observation { previous: o.current, current: value },
        None => Observation { previous: value, current: value },
    }
}

/// One watched location: empty until its first successful read.
pub struct ChangeCell<T> {
    observed: Option<Observation<T>>,
}

impl<T> View for ChangeCell<T> {
    type V = Option<Observation<T>>;

    closed spec fn view(&self) -> Option<Observation<T>> {
        self.observed
    }
}

impl<T: Copy> ChangeCell<T> {
    pub fn new() -> (c: ChangeCell<T>)
        ensures
            c@ is None,
    {
        ChangeCell { observed: None }
    }

    /// Takes one read. A failed read (`None`) changes nothing and yields
    /// `None`; a successful one shifts `current` into `previous`, stores the
    /// value and yields both.
    pub fn update(&mut self, read: Option<T>) -> (r: Option<Observation<T>>)
        ensures
            match read {
                Some(v) => final(self)@ == Some(after_read(old(self)@, v)) && r == final(self)@,
                None => final(self)@ == old(self)@ && r is None,
            },
    {
        match read {
            Some(v) => {
                let next = match self.observed {
                    Some(o) => Observation { previous: o.current, current: v },
                    None => Observation { previous: v, current: v },
                };
                self.observed = Some(next);
                Some(next)
            },
            None => None,
        }
    }

    /// The last two readings, if any read has succeeded.
    pub fn observation(&self) -> (r: Option<Observation<T>>)
        ensures
            r == self@,
    {
        self.observed
    }
}

/// A read that succeeds makes the read value `current` and the value held
/// before `previous`; one that fails keeps both.
pub proof fn read_shifts_values<T>(o: Option<Observation<T>>, value: T)
    ensures
        after_read(o, value).current == value,
        o is Some ==> after_read(o, value).previous == o.unwrap().current,
        o is None ==> after_read(o, value).previous == value,
{
}

/// An edge does not fire twice in a row: once `p` holds of the current value,
/// the next successful read cannot show `p` rising, whatever value it brings.
pub proof fn edge_fires_once<T>(o: Observation<T>, value: T, p: spec_fn(T) -> bool)
    requires
        p(o.current),
    ensures
        !after_read(Some(o), value).rose(p),
{
}

/// The edge fires exactly when `p` holds of the new value and not of the
/// value it replaced.
pub proof fn edge_after_read<T>(o: Observation<T>, value: T, p: spec_fn(T) -> bool)
    ensures
        after_read(Some(o), value).rose(p) == (p(value) && !p(o.current)),
{
}

} // verus!
