//! A container that receives its children on its first draw, and only then.

use vstd::prelude::*;

verus! {

/// The direction in which a container lays out its children.
#[derive(Clone, Copy, Debug, PartialEq, Eq, Structural)]
pub enum Orientation {
    Horizontal,
    Vertical,
}

/// The kinds of widget that a container can hold.
#[derive(Clone, Copy, Debug, PartialEq, Eq, Structural)]
pub enum WidgetKind {
    Box,
    Button,
    CheckBox,
    ComboBox,
    Image,
    Label,
    Notebook,
    Scale,
}

/// How a child is packed into its container.
#[derive(Clone, Copy, Debug, PartialEq, Eq, Structural)]
pub struct Packing {
    pub expand: bool,
    pub fill: bool,
    pub padding: u32,
}

/// The gap between the children of a container: thirty pixels in a row,
/// none in a column.
pub fn spacing(orientation: Orientation) -> (gap: i32)
    ensures
        gap == if orientation is Horizontal {
            30i32
        } else {
            0i32
        },
{
    match orientation {
        Orientation::Horizontal => 30,
        Orientation::Vertical => 0,
    }
}

/// The children of a container after a draw: those declared for it where it
/// had none, else those it had.
pub open spec fn populated(children: Seq<WidgetKind>, declared: Seq<WidgetKind>) -> Seq<
    WidgetKind,
> {
    if children.len() == 0 {
        declared
    } else {
        children
    }
}

/// The packing that a leading label gets, so that it pushes what follows
/// aside; no other first child is repacked.
pub open spec fn leading_packing(children: Seq<WidgetKind>) -> Option<Packing> {
    if children.len() > 0 && children[0] is Label {
        Some(Packing { expand: true, fill: true, padding: 12 })
    } else {
        None
    }
}

/// The children that a container holds so far.
pub struct Container {
    children: Vec<WidgetKind>,
}

impl View for Container {
    type V = Seq<WidgetKind>;

    closed spec fn view(&self) -> Seq<WidgetKind> {
        self.children@
    }
}

impl Container {
    /// A container without children.
    pub fn new() -> (c: Self)
        ensures
            c@ == Seq::<WidgetKind>::empty(),
    {
        Container { children: Vec::new() }
    }

    /// A container that holds `children`, in their order.
    pub fn holding(children: Vec<WidgetKind>) -> (c: Self)
        ensures
            c@ == children@,
    {
        Container { children }
    }

    /// The number of children.
    pub fn len(&self) -> (n: usize)
        ensures
            n == self@.len(),
    {
        self.children.len()
    }

    /// The kind of the child at place `i`, if there is one.
    pub fn child(&self, i: usize) -> (k: Option<WidgetKind>)
        ensures
            k == if i < self@.len() {
                Some(self@[i as int])
            } else {
                None
            },
    {
        if i < self.children.len() {
            Some(self.children[i])
        } else {
            None
        }
    }

    /// The draw step: a container without children receives the declared
    /// ones, in their order; one that has children is left as it is.
    /// Returns whether the container was without children, and so whether
    /// the declared children are to be built and shown.
    pub fn populate(&mut self, declared: &Vec<WidgetKind>) -> (entered: bool)
        ensures
            entered == (old(self)@.len() == 0),
            final(self)@ == populated(old(self)@, declared@),
    {
        if self.children.len() != 0 {
            return false;
        }
        let mut i: usize = 0;
        while i < declared.len()
            invariant
                i <= declared.len(),
                self.children@ == declared@.take(i as int),
            decreases declared.len() - i,
        {
            self.children.push(declared[i]);
            assert(self.children@ =~= declared@.take(i + 1));
            i = i + 1;
        }
        assert(declared@.take(i as int) =~= declared@);
        true
    }

    /// How the first child is to be repacked after the children were added.
    pub fn first_packing(&self) -> (p: Option<Packing>)
        ensures
            p == leading_packing(self@),
    {
        if self.children.len() == 0 {
            return None;
        }
        match self.children[0] {
            WidgetKind::Label => Some(Packing { expand: true, fill: true, padding: 12 }),
            _ => None,
        }
    }
}

/// Populating is idempotent: a second draw leaves the children of the
/// first, so no declared child is ever added twice.
pub proof fn populate_once(children: Seq<WidgetKind>, declared: Seq<WidgetKind>)
    ensures
        populated(populated(children, declared), declared) == populated(children, declared),
        children.len() > 0 ==> populated(children, declared) == children,
{
}

} // verus!
