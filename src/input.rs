//! The semantic input vocabulary: control axes and discrete actions.
use vstd::prelude::*;

verus! {

/// The input control axes.
#[derive(Clone, Copy, Debug, Hash, PartialEq, Eq, Structural)]
pub enum AxisBinding {
    Horizontal,
    Vertical,
}

/// The label of an axis: the name of its variant.
pub open spec fn axis_label(a: AxisBinding) -> Seq<char> {
    match a {
        AxisBinding::Horizontal => seq!['H', 'o', 'r', 'i', 'z', 'o', 'n', 't', 'a', 'l'],
        AxisBinding::Vertical => seq!['V', 'e', 'r', 't', 'i', 'c', 'a', 'l'],
    }
}

/// The axis whose label is `s`, if any.
pub open spec fn axis_from_label(s: Seq<char>) -> Option<AxisBinding> {
    if s == axis_label(AxisBinding::Horizontal) {
        Some(AxisBinding::Horizontal)
    } else if s == axis_label(AxisBinding::Vertical) {
        Some(AxisBinding::Vertical)
    } else {
        None
    }
}

/// Every axis reads back from its label, and two axes share a label only if
/// they are the same axis.
pub proof fn lemma_axis_label_round_trip(a: AxisBinding, b: AxisBinding)
    ensures
        axis_from_label(axis_label(a)) == Some(a),
        axis_label(a) == axis_label(b) <==> a == b,
{
    assert(axis_label(AxisBinding::Horizontal) != axis_label(AxisBinding::Vertical)) by {
        assert(axis_label(AxisBinding::Horizontal).len() != axis_label(AxisBinding::Vertical).len());
    }
}

impl AxisBinding {
    /// The human-readable label of the axis, equal to the variant's name.
    pub fn to_string(&self) -> (r: String)
        ensures
            r@ == axis_label(*self),
    {
        match self {
            AxisBinding::Horizontal => {
                proof {
                    reveal_strlit("Horizontal");
                }
                "Horizontal".to_owned()
            },
            AxisBinding::Vertical => {
                proof {
                    reveal_strlit("Vertical");
                }
                "Vertical".to_owned()
            },
        }
    }

    /// The axis whose label is `label`, or `None` when no axis has it.
    pub fn from_label(label: &str) -> (r: Option<AxisBinding>)
        ensures
            r == axis_from_label(label@),
    {
        let given = label.to_owned();
        let horizontal = AxisBinding::Horizontal.to_string();
        if given == horizontal {
            return Some(AxisBinding::Horizontal);
        }
        let vertical = AxisBinding::Vertical.to_string();
        if given == vertical {
            return Some(AxisBinding::Vertical);
        }
        None
    }
}

/// The first axis, in declaration order, that `bound` lacks.
pub open spec fn spec_first_unbound(bound: Seq<AxisBinding>) -> Option<AxisBinding> {
    if !bound.contains(AxisBinding::Horizontal) {
        Some(AxisBinding::Horizontal)
    } else if !bound.contains(AxisBinding::Vertical) {
        Some(AxisBinding::Vertical)
    } else {
        None
    }
}

/// Whether `bound` holds `axis`.
fn holds_axis(bound: &Vec<AxisBinding>, axis: AxisBinding) -> (r: bool)
    ensures
        r == bound@.contains(axis),
{
    let mut i: usize = 0;
    while i < bound.len()
        invariant
            i <= bound@.len(),
            forall|j: int| 0 <= j < i ==> bound@[j] != axis,
        decreases bound@.len() - i,
    {
        if bound[i] == axis {
            return true;
        }
        i = i + 1;
    }
    false
}

/// The first axis, in declaration order, that has no binding among `bound`,
/// the axes that a binding table configures; `None` when every axis has
/// one. Startup refuses a table for which this is `Some`.
pub fn first_unbound_axis(bound: &Vec<AxisBinding>) -> (r: Option<AxisBinding>)
    ensures
        r == spec_first_unbound(bound@),
        r is None <==> (bound@.contains(AxisBinding::Horizontal) && bound@.contains(
            AxisBinding::Vertical,
        )),
        r matches Some(a) ==> !bound@.contains(a),
{
    if !holds_axis(bound, AxisBinding::Horizontal) {
        Some(AxisBinding::Horizontal)
    } else if !holds_axis(bound, AxisBinding::Vertical) {
        Some(AxisBinding::Vertical)
    } else {
        None
    }
}

/// The kinds of input actions that can be taken. None is defined yet: the
/// type holds an uninhabited value, so no action can ever be made.
#[derive(Clone, Copy, Debug, Hash, PartialEq, Eq)]
pub struct ActionBinding {
    none: core::convert::Infallible,
}

/// The action whose label is `s`, if any: there is none.
pub open spec fn action_from_label(s: Seq<char>) -> Option<ActionBinding> {
    None
}

impl ActionBinding {
    /// The human-readable label of the action. No action exists, so no
    /// call can reach this body: the match on the uninhabited field has no
    /// value to take.
    pub fn to_string(&self) -> String {
        match self.none {
            _ => String::new(),
        }
    }

    /// The action whose label is `label`: none, as no action exists.
    pub fn from_label(label: &str) -> (r: Option<ActionBinding>)
        ensures
            r == action_from_label(label@),
    {
        None
    }
}

/// The input vocabulary of the camera controls: the axes of [`AxisBinding`]
/// paired with the actions of [`ActionBinding`].
#[derive(Clone, Copy, Debug, PartialEq, Eq, Structural)]
pub struct MovementBindingTypes;

} // verus!
