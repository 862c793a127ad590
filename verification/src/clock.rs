//! Which clocks of a device-tree node are switched on, and how.
use vstd::prelude::*;
use fdt_edit::{Node, Property};

verus! {

/// A node of a device tree.
#[verifier::external_type_specification]
#[verifier::external_body]
pub struct DeviceTreeNode(Node);

/// A property of a device-tree node.
#[verifier::external_type_specification]
#[verifier::external_body]
pub struct DeviceTreeProperty(Property);

/// The name of a node.
pub uninterp spec fn node_title(node: Node) -> Seq<char>;

/// The properties of a node, by name.
pub uninterp spec fn node_properties(node: Node) -> Map<Seq<char>, Seq<u8>>;

/// The bytes of a property.
pub uninterp spec fn property_bytes(property: Property) -> Seq<u8>;

/// `fdt_edit::Node::name`: hands out the name that the node keeps.
#[verifier::external_body]
fn name_of(node: &Node) -> (name: &str)
    ensures
        name@ == node_title(*node),
{
    node.name()
}

/// `fdt_edit::Node::get_property`: looks a property up by its name. Of two with
/// the same name, the node knows the one that was added last.
#[verifier::external_body]
fn property_of<'a>(node: &'a Node, name: &str) -> (property: Option<&'a Property>)
    ensures
        match property {
            Some(property) => node_properties(*node).dom().contains(name@) && node_properties(
                *node,
            )[name@] == property_bytes(*property),
            None => !node_properties(*node).dom().contains(name@),
        },
{
    node.get_property(name)
}

/// `fdt_edit::Property::get_u32`: reads four bytes as a number, the highest
/// first. Any other length is no number.
#[verifier::external_body]
fn number_of(property: &Property) -> (number: Option<u32>)
    ensures
        number == number_in(property_bytes(*property)),
{
    property.get_u32()
}

/// The number that four bytes make, the highest first.
pub open spec fn number_in(bytes: Seq<u8>) -> Option<u32> {
    if bytes.len() == 4 {
        Some(
            (bytes[0] * 0x100_0000 + bytes[1] * 0x1_0000 + bytes[2] * 0x100 + bytes[3]) as u32,
        )
    } else {
        None
    }
}

/// The number of the clock protocol.
pub const SCMI_CLOCK_PROTOCOL: u32 = 0x14;

/// How the name of a node of the clock protocol begins.
pub open spec fn protocol_prefix() -> Seq<char> {
    "protocol@14"@
}

/// Whether a node with this name and number offers the clock protocol.
pub open spec fn offers_clocks(name: Seq<char>, reg: Option<u32>) -> bool {
    protocol_prefix().is_prefix_of(name) && reg == Some(SCMI_CLOCK_PROTOCOL)
}

/// The number that a node is given, if it has one.
pub open spec fn node_number(node: Node) -> Option<u32> {
    if node_properties(node).dom().contains("reg"@) {
        number_in(node_properties(node)["reg"@])
    } else {
        None
    }
}

/// Tests whether a text begins with another.
fn begins_with(text: &str, prefix: &str) -> (begins: bool)
    ensures
        begins == prefix@.is_prefix_of(text@),
{
    let len: usize = prefix.unicode_len();
    if text.unicode_len() < len {
        return false;
    }
    let mut i: usize = 0;
    while i < len
        invariant
            i <= len,
            len == prefix@.len(),
            len <= text@.len(),
            forall|j: int| 0 <= j < i ==> prefix@[j] == #[trigger] text@[j],
        decreases len - i,
    {
        if prefix.get_char(i) != text.get_char(i) {
            assert(text@.take(len as int)[i as int] != prefix@[i as int]);
            return false;
        }
        i = i + 1;
    }
    assert(prefix@ =~= text@.take(len as int));
    true
}

/// Tests whether a node with this name and number offers the clock protocol.
pub fn is_scmi_provider(name: &str, reg: Option<u32>) -> (is: bool)
    ensures
        is == offers_clocks(name@, reg),
{
    begins_with(name, "protocol@14") && match reg {
        Some(number) => number == SCMI_CLOCK_PROTOCOL,
        None => false,
    }
}

/// Tests whether a node offers the clock protocol.
pub fn is_scmi_clock_protocol(node: &Node) -> (is: bool)
    ensures
        is == offers_clocks(node_title(*node), node_number(*node)),
{
    let reg: Option<u32> = match property_of(node, "reg") {
        Some(property) => number_of(property),
        None => None,
    };
    is_scmi_provider(name_of(node), reg)
}

/// A clock behind the clock protocol.
#[derive(Clone, Copy, Debug, PartialEq, Eq, Structural)]
pub struct ScmiClockOps {
    pub phandle: u32,
    pub clock_id: u32,
}

impl ScmiClockOps {
    /// The clock that a reference names, if its provider offers the clock
    /// protocol and the reference says which clock.
    pub fn from_ref(phandle: u32, provider: Option<&Node>, specifier: &Vec<u32>) -> (clock: Option<Self>)
        ensures
            clock == match provider {
                Some(node) => if offers_clocks(node_title(*node), node_number(*node))
                    && specifier@.len() > 0 {
                    Some(ScmiClockOps { phandle, clock_id: specifier@[0] })
                } else {
                    None
                },
                None => None,
            },
    {
        let node = match provider {
            Some(node) => node,
            None => {
                return None;
            },
        };
        if !is_scmi_clock_protocol(node) || specifier.len() == 0 {
            return None;
        }
        Some(ScmiClockOps { phandle, clock_id: specifier[0] })
    }
}

/// How a clock is switched on.
#[derive(Clone, Copy, Debug, PartialEq, Eq, Structural)]
pub enum ClockPlan {
    /// A placeholder is left alone.
    Skip,
    Scmi(ScmiClockOps),
    Line,
}

/// Decides how a clock of a node is switched on: `select` is the clock's number
/// at its provider, `scmi` the clock behind the clock protocol.
pub fn plan_clock(select: Option<u32>, scmi: Option<ScmiClockOps>) -> (plan: ClockPlan)
    ensures
        plan == if select == Some(0u32) {
            ClockPlan::Skip
        } else {
            match scmi {
                Some(clock) => ClockPlan::Scmi(clock),
                None => ClockPlan::Line,
            }
        },
{
    if let Some(select) = select {
        if select == 0 {
            return ClockPlan::Skip;
        }
    }
    match scmi {
        Some(clock) => ClockPlan::Scmi(clock),
        None => ClockPlan::Line,
    }
}

} // verus!
