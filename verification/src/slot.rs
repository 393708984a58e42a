use vstd::prelude::*;

verus! {

/// The value that taking from a filled cell hands back.
pub open spec fn value_taken<T>(contents: Option<T>) -> T
    recommends
        contents is Some,
{
    contents->0
}

/// The contents of two cells after they have exchanged their values.
pub open spec fn contents_after_swap<T>(pair: (Option<T>, Option<T>)) -> (Option<T>, Option<T>) {
    (pair.1, pair.0)
}

/// A slot that holds a value or is empty, with take/put semantics.
///
/// A value can be taken out only when the slot is filled, put in only when
/// it is empty, and replaced only when it is filled. Its view is the current
/// contents: `Some(v)` when filled with `v`, `None` when empty.
#[derive(Debug, Eq, Ord, Hash)]
pub struct SlotCell<T> {
    cell: Option<T>,
}

impl<T> View for SlotCell<T> {
    type V = Option<T>;

    closed spec fn view(&self) -> Option<T> {
        self.cell
    }
}

impl<T> SlotCell<T> {
    /// Creates a cell filled with `val`.
    pub fn new(val: T) -> (cell: Self)
        ensures
            cell@ == Some(val),
    {
        SlotCell { cell: Some(val) }
    }

    /// Creates an empty cell, to be filled later with `put`.
    pub fn empty() -> (cell: Self)
        ensures
            cell@ is None,
    {
        SlotCell { cell: None }
    }

    /// The current contents, for the comparisons of this crate.
    pub(crate) fn contents(&self) -> (contents: &Option<T>)
        ensures
            *contents == self@,
    {
        &self.cell
    }

    /// Takes the value out of the cell, leaving it empty.
    ///
    /// The cell must be filled.
    #[must_use]
    pub fn take(&mut self) -> (val: T)
        requires
            old(self)@ is Some,
        ensures
            val == value_taken(old(self)@),
            final(self)@ is None,
    {
        self.cell.take().expect("Attempted to `take` a value when the slot is already empty.")
    }

    /// Whether the cell is empty.
    pub fn is_empty(&self) -> (empty: bool)
        ensures
            empty == (self@ is None),
    {
        self.cell.is_none()
    }

    /// Whether the cell holds a value.
    pub fn is_filled(&self) -> (filled: bool)
        ensures
            filled == (self@ is Some),
    {
        self.cell.is_some()
    }

    /// Puts `val` into the cell, filling it.
    ///
    /// The cell must be empty.
    pub fn put(&mut self, val: T)
        requires
            old(self)@ is None,
        ensures
            final(self)@ == Some(val),
    {
        if self.cell.is_some() {
            // Not reached from verified code, which meets the requirement above;
            // a caller outside Verus that puts into a filled cell gets a panic.
            let nothing: Option<T> = None;
            nothing.expect("Attempted to `put` a value when the slot is already filled.");
        }
        self.cell = Some(val);
    }

    /// Replaces the value of a filled cell with `val` and returns the old one.
    ///
    /// The cell must be filled; it stays filled.
    pub fn replace(&mut self, val: T) -> (previous: T)
        requires
            old(self)@ is Some,
        ensures
            previous == value_taken(old(self)@),
            final(self)@ == Some(val),
    {
        let previous = self.cell.take().expect(
            "Attempted to `replace` a value when the slot is already empty.",
        );
        self.cell = Some(val);
        previous
    }

    /// Exchanges the values of two filled cells.
    ///
    /// Both cells must be filled.
    pub fn swap(&mut self, other: &mut Self)
        requires
            old(self)@ is Some,
            old(other)@ is Some,
        ensures
            (final(self)@, final(other)@) == contents_after_swap((old(self)@, old(other)@)),
            final(self)@ == old(other)@,
            final(other)@ == old(self)@,
    {
        // Both cells are checked before either changes.
        self.cell.as_ref().expect("Attempted to `swap` a value when this slot is already empty.");
        other.cell.as_ref().expect(
            "Attempted to `swap` a value when the other slot is already empty.",
        );
        std::mem::swap(&mut self.cell, &mut other.cell);
    }

    /// Runs `f` on a mutable reference to the value and returns what `f` returns.
    ///
    /// The value is taken out, handed to `f`, and put back with the changes
    /// that `f` made to it. The cell must be filled, and `f` must accept the
    /// value that the cell holds.
    pub fn with<R>(&mut self, f: impl FnOnce(&mut T) -> R) -> (r: R)
        requires
            old(self)@ is Some,
            forall|v: &mut T| *v == value_taken(old(self)@) ==> #[trigger] f.requires((v,)),
        ensures
            exists|v: &mut T|
                {
                    &&& *v == value_taken(old(self)@)
                    &&& #[trigger] f.ensures((v,), r)
                    &&& final(self)@ == Some(*final(v))
                },
    {
        let mut v = self.take();
        let r = f(&mut v);
        self.put(v);
        r
    }

    /// Replaces the value by what `f` makes of it.
    ///
    /// The value is taken out, handed to `f` by value, and what `f` returns is
    /// put back. The cell must be filled, and `f` must accept its value.
    pub fn update(&mut self, f: impl FnOnce(T) -> T)
        requires
            old(self)@ is Some,
            f.requires((value_taken(old(self)@),)),
        ensures
            exists|r: T|
                {
                    &&& #[trigger] f.ensures((value_taken(old(self)@),), r)
                    &&& final(self)@ == Some(r)
                },
    {
        let v = self.take();
        let r = f(v);
        self.put(r);
    }

    /// Consumes the cell and returns its value.
    ///
    /// The cell must be filled.
    pub fn into_inner(self) -> (val: T)
        requires
            self@ is Some,
        ensures
            val == value_taken(self@),
    {
        let mut cell = self;
        cell.take()
    }
}

impl<T> Default for SlotCell<T> {
    /// An empty cell.
    fn default() -> (cell: Self)
        ensures
            cell@ is None,
    {
        SlotCell::empty()
    }
}

impl<T> From<T> for SlotCell<T> {
    /// A cell filled with `value`.
    fn from(value: T) -> (cell: Self)
        ensures
            cell@ == Some(value),
    {
        SlotCell::new(value)
    }
}

impl<T> vstd::std_specs::convert::FromSpecImpl<T> for SlotCell<T> {
    open spec fn obeys_from_spec() -> bool {
        true
    }

    closed spec fn from_spec(value: T) -> Self {
        SlotCell { cell: Some(value) }
    }
}

impl<T> From<Option<T>> for SlotCell<T> {
    /// A cell filled with the value of `Some`, or an empty cell for `None`.
    fn from(value: Option<T>) -> (cell: Self)
        ensures
            cell@ == value,
    {
        SlotCell { cell: value }
    }
}

impl<T> vstd::std_specs::convert::FromSpecImpl<Option<T>> for SlotCell<T> {
    open spec fn obeys_from_spec() -> bool {
        true
    }

    closed spec fn from_spec(value: Option<T>) -> Self {
        SlotCell { cell: value }
    }
}

impl<T> From<SlotCell<T>> for Option<T> {
    /// The value of a filled cell as `Some`, or `None` for an empty cell.
    fn from(cell: SlotCell<T>) -> (value: Self)
        ensures
            value == cell@,
    {
        if cell.is_empty() {
            None
        } else {
            Some(cell.into_inner())
        }
    }
}

impl<T> vstd::std_specs::convert::FromSpecImpl<SlotCell<T>> for Option<T> {
    open spec fn obeys_from_spec() -> bool {
        true
    }

    open spec fn from_spec(cell: SlotCell<T>) -> Self {
        cell@
    }
}

/// Law: `is_empty` and `is_filled` always answer opposite ways. By their
/// `ensures` they answer `cell@ is None` and `cell@ is Some`; this states that
/// exactly one of the two holds of every cell.
pub proof fn lemma_empty_or_filled<T>(cell: SlotCell<T>)
    ensures
        (cell@ is None) != (cell@ is Some),
{
}

/// Law: a value put into an empty cell is what the next `take` hands back.
/// By its `ensures`, `put(val)` leaves the contents `Some(val)`; `take` hands
/// back `value_taken` of the contents (and leaves `None`, the contents before
/// the `put`); this states that `value_taken(Some(val))` is `val`.
pub proof fn lemma_put_then_take<T>(val: T)
    ensures
        value_taken(Some(val)) == val,
{
}

/// Law: taking the value out of a filled cell and putting it back leaves the
/// cell as it was. By their `ensures`, `take` hands back `value_taken` of the
/// contents and `put` then leaves `Some` of that value; this states that
/// `Some(value_taken(contents))` is `contents` for a filled cell. The same
/// holds of a `replace` with the value that an earlier `replace` handed back.
pub proof fn lemma_take_then_put<T>(contents: Option<T>)
    requires
        contents is Some,
    ensures
        Some(value_taken(contents)) == contents,
{
}

/// Law: after two cells swap, the first holds what the second held and the
/// second holds what the first held, whatever the values are.
pub proof fn lemma_swap_exchanges<T>(a: Option<T>, b: Option<T>)
    ensures
        contents_after_swap((a, b)).0 == b,
        contents_after_swap((a, b)).1 == a,
{
}

/// Law: two filled cells stay filled when they swap, and swapping them twice
/// restores both.
pub proof fn lemma_swap_twice<T>(a: Option<T>, b: Option<T>)
    requires
        a is Some,
        b is Some,
    ensures
        contents_after_swap((a, b)).0 is Some,
        contents_after_swap((a, b)).1 is Some,
        contents_after_swap(contents_after_swap((a, b))) == (a, b),
{
}

/// Law: turning an `Option` into a cell and the cell back into an `Option`
/// gives the same `Option`, and a cell made from a value is filled with it.
pub proof fn lemma_option_round_trip<T>(value: Option<T>, val: T)
    ensures
        <Option<T> as vstd::std_specs::convert::FromSpec<SlotCell<T>>>::from_spec(
            <SlotCell<T> as vstd::std_specs::convert::FromSpec<Option<T>>>::from_spec(value),
        ) == value,
        <SlotCell<T> as vstd::std_specs::convert::FromSpec<T>>::from_spec(val)@ == Some(val),
        <SlotCell<T> as vstd::std_specs::convert::FromSpec<Option<T>>>::from_spec(value)@
            == value,
{
}

} // verus!
