//! A singly linked stack: push and pop at the head.
use vstd::prelude::*;

verus! {

/// One cell of the list.
pub struct Node<T> {
    pub val: T,
    pub next: Option<Box<Node<T>>>,
}

/// The values from `n` to the end of its list.
pub open spec fn node_values<T>(n: Node<T>) -> Seq<T>
    decreases n,
{
    match n.next {
        Some(b) => seq![n.val] + node_values(*b),
        None => seq![n.val],
    }
}

impl<T> Node<T> {
    /// A cell holding `val` with nothing after it.
    pub fn new(val: T) -> (r: Node<T>)
        ensures
            r.val == val,
            r.next is None,
    {
        Node { val, next: None }
    }
}

/// A stack of values kept as a chain of cells; the head is the top.
pub struct LinkedList<T> {
    pub head: Option<Node<T>>,
}

impl<T> View for LinkedList<T> {
    type V = Seq<T>;

    /// The values from top to bottom.
    open spec fn view(&self) -> Seq<T> {
        match self.head {
            Some(n) => node_values(n),
            None => Seq::empty(),
        }
    }
}

impl<T> LinkedList<T> {
    /// An empty stack.
    pub fn new() -> (r: LinkedList<T>)
        ensures
            r@.len() == 0,
    {
        LinkedList { head: None }
    }

    /// Puts `val` on top.
    pub fn push(&mut self, val: T)
        ensures
            final(self)@ == seq![val] + old(self)@,
    {
        let mut node = Node::new(val);
        match self.head.take() {
            Some(old_head) => {
                node.next = Some(Box::new(old_head));
            },
            None => {},
        }
        self.head = Some(node);
    }

    /// Takes the top value off, or `None` where the stack is empty.
    pub fn pop(&mut self) -> (r: Option<T>)
        ensures
            old(self)@.len() == 0 ==> r is None && final(self)@.len() == 0,
            old(self)@.len() > 0 ==> r == Some(old(self)@[0]) && final(self)@ == old(self)@.drop_first(),
    {
        match self.head.take() {
            Some(node) => {
                self.head = match node.next {
                    Some(b) => Some(*b),
                    None => None,
                };
                Some(node.val)
            },
            None => None,
        }
    }
}

} // verus!
