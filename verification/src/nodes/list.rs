use vstd::prelude::*;

verus! {

/// One link of a [`NodeList`]: an item and the items after it.
#[derive(Debug, PartialEq, Eq)]
pub struct ListCell<T> {
    pub head: T,
    pub tail: NodeList<T>,
}

/// An ordered sequence of nodes, owned link by link.
///
/// A list is a plain value: two lists are equal exactly when they hold equal
/// items in the same order, so a tree built from lists can be compared with
/// `==` in contracts. Its view is the `Seq` of its items.
#[derive(Debug, PartialEq, Eq)]
pub enum NodeList<T> {
    Empty,
    Cell(Box<ListCell<T>>),
}

impl<T> View for NodeList<T> {
    type V = Seq<T>;

    open spec fn view(&self) -> Seq<T>
        decreases self,
    {
        match self {
            NodeList::Empty => Seq::empty(),
            NodeList::Cell(cell) => seq![cell.head] + cell.tail@,
        }
    }
}

/// The larger of two depths.
pub open spec fn deeper(a: nat, b: nat) -> nat {
    if a >= b {
        a
    } else {
        b
    }
}

impl<T> NodeList<T> {
    /// The number of items.
    pub open spec fn count(self) -> nat
        decreases self,
    {
        match self {
            NodeList::Empty => 0,
            NodeList::Cell(cell) => 1 + cell.tail.count(),
        }
    }

    /// The list `item, rest...`.
    pub open spec fn cons(item: T, rest: NodeList<T>) -> NodeList<T> {
        NodeList::Cell(Box::new(ListCell { head: item, tail: rest }))
    }

    /// The items of `item, rest...` are `item`, then the items of `rest`.
    pub proof fn view_of_cons(item: T, rest: NodeList<T>)
        ensures
            NodeList::cons(item, rest)@ == seq![item] + rest@,
    {
    }

    /// The list of one item holds that item and nothing else.
    pub proof fn view_of_one(item: T)
        ensures
            NodeList::cons(item, NodeList::Empty)@ == seq![item],
    {
        Self::view_of_cons(item, NodeList::Empty);
        assert(NodeList::<T>::Empty@ == Seq::<T>::empty());
        assert(seq![item] + Seq::<T>::empty() =~= seq![item]);
    }

    /// Lists with the same items in the same order are the same list.
    pub proof fn view_is_injective(self, other: NodeList<T>)
        requires
            self@ == other@,
        ensures
            self == other,
        decreases self,
    {
        match (self, other) {
            (NodeList::Empty, NodeList::Empty) => {},
            (NodeList::Cell(a), NodeList::Cell(b)) => {
                assert(self@ == seq![a.head] + a.tail@);
                assert(other@ == seq![b.head] + b.tail@);
                assert(a.head == self@[0]);
                assert(b.head == other@[0]);
                assert(a.tail@ =~= self@.subrange(1, self@.len() as int));
                assert(b.tail@ =~= other@.subrange(1, other@.len() as int));
                a.tail.view_is_injective(b.tail);
            },
            (NodeList::Empty, NodeList::Cell(b)) => {
                assert(other@ == seq![b.head] + b.tail@);
                assert(other@.len() > 0);
            },
            (NodeList::Cell(a), NodeList::Empty) => {
                assert(self@ == seq![a.head] + a.tail@);
                assert(self@.len() > 0);
            },
        }
    }

    /// The empty list.
    pub fn new() -> (list: Self)
        ensures
            list == NodeList::<T>::Empty,
            list@ == Seq::<T>::empty(),
    {
        NodeList::Empty
    }

    /// Whether the list holds no item.
    pub fn is_empty(&self) -> (empty: bool)
        ensures
            empty == (self@.len() == 0),
            empty == (*self == NodeList::<T>::Empty),
    {
        match self {
            NodeList::Empty => true,
            NodeList::Cell(cell) => {
                assert(self@ == seq![cell.head] + cell.tail@);
                assert(self@.len() == 1 + cell.tail@.len());
                false
            },
        }
    }

    /// The number of items, counted link by link; a count that does not fit
    /// in `usize` is reported as `usize::MAX`.
    pub fn len(&self) -> (count: usize)
        ensures
            self@.len() <= usize::MAX ==> count == self@.len(),
            self@.len() > usize::MAX ==> count == usize::MAX,
    {
        let mut count: usize = 0;
        let mut rest = self;
        loop
            invariant
                count as nat + rest@.len() == self@.len() || (count == usize::MAX && self@.len()
                    > usize::MAX),
            ensures
                self@.len() <= usize::MAX ==> count == self@.len(),
                self@.len() > usize::MAX ==> count == usize::MAX,
            decreases rest@.len(),
        {
            match rest {
                NodeList::Empty => {
                    break ;
                },
                NodeList::Cell(cell) => {
                    assert(rest@ == seq![cell.head] + cell.tail@);
                    if count < usize::MAX {
                        count = count + 1;
                    }
                    rest = &cell.tail;
                },
            }
        }
        count
    }

    /// Whether `longer` holds exactly one item more than this list.
    pub fn is_one_shorter_than<U>(&self, longer: &NodeList<U>) -> (fits: bool)
        ensures
            fits == (self@.len() + 1 == longer@.len()),
        decreases self,
    {
        match longer {
            NodeList::Empty => false,
            NodeList::Cell(more) => {
                assert(longer@ == seq![more.head] + more.tail@);
                match self {
                    NodeList::Empty => more.tail.is_empty(),
                    NodeList::Cell(cell) => {
                        assert(self@ == seq![cell.head] + cell.tail@);
                        cell.tail.is_one_shorter_than(&more.tail)
                    },
                }
            },
        }
    }

    /// The item at `index`, if the list is that long.
    pub fn get(&self, index: usize) -> (item: Option<&T>)
        ensures
            index < self@.len() ==> item == Some(&self@[index as int]),
            index >= self@.len() ==> item is None,
    {
        let mut remaining: usize = index;
        let mut rest = self;
        loop
            invariant
                remaining <= index,
                rest@ =~= self@.skip(index - remaining),
                index - remaining <= self@.len(),
            decreases rest@.len(),
        {
            match rest {
                NodeList::Empty => {
                    return None;
                },
                NodeList::Cell(cell) => {
                    assert(rest@ == seq![cell.head] + cell.tail@);
                    if remaining == 0 {
                        assert(rest@[0] == self@[index as int]);
                        return Some(&cell.head);
                    }
                    assert(cell.tail@ =~= rest@.skip(1));
                    remaining = remaining - 1;
                    rest = &cell.tail;
                },
            }
        }
    }

    /// Puts `item` in front of the list.
    pub fn prepend(self, item: T) -> (list: Self)
        ensures
            list == NodeList::cons(item, self),
            list@ == seq![item] + self@,
    {
        NodeList::Cell(Box::new(ListCell { head: item, tail: self }))
    }

    /// Adds `item` after the last item.
    pub fn push(&mut self, item: T)
        ensures
            final(self)@ == old(self)@.push(item),
        decreases *old(self),
    {
        match self {
            NodeList::Empty => {
                *self = NodeList::Cell(Box::new(ListCell { head: item, tail: NodeList::Empty }));
                assert(self@ =~= old(self)@.push(item));
            },
            NodeList::Cell(cell) => {
                cell.tail.push(item);
                assert(self@ =~= old(self)@.push(item));
            },
        }
    }

    /// Takes the whole list out and leaves the empty list behind.
    pub fn take(&mut self) -> (list: Self)
        ensures
            list == *old(self),
            *final(self) == NodeList::<T>::Empty,
    {
        let mut list = NodeList::Empty;
        core::mem::swap(self, &mut list);
        list
    }

    /// The list of the items of `items`, in the same order.
    pub fn from_vec(items: Vec<T>) -> (list: Self)
        ensures
            list@ == items@,
    {
        let mut items = items;
        let mut list = NodeList::Empty;
        let ghost all = items@;
        while items.len() > 0
            invariant
                items@ + list@ == all,
            decreases items.len(),
        {
            let ghost before = items@;
            let ghost tail = list@;
            let item = items.pop().unwrap();
            list = list.prepend(item);
            assert(items@ + list@ =~= before + tail);
        }
        assert(items@ + list@ =~= list@);
        list
    }

    /// The items of the list as a vector, in the same order.
    pub fn into_vec(self) -> (items: Vec<T>)
        ensures
            items@ == self@,
    {
        let mut items: Vec<T> = Vec::new();
        let mut rest = self;
        loop
            invariant
                items@ + rest@ == self@,
            ensures
                items@ == self@,
            decreases rest@.len(),
        {
            match rest {
                NodeList::Empty => {
                    assert(items@ + rest@ =~= items@);
                    break ;
                },
                NodeList::Cell(cell) => {
                    let ghost before = items@;
                    let cell = *cell;
                    items.push(cell.head);
                    assert(items@ + cell.tail@ =~= before + (seq![cell.head] + cell.tail@));
                    rest = cell.tail;
                },
            }
        }
        items
    }
}

impl<T> Default for NodeList<T> {
    fn default() -> (list: Self)
        ensures
            list == NodeList::<T>::Empty,
    {
        NodeList::Empty
    }
}

} // verus!
