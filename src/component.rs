//! Components of an editor installation, and the static fields of the Java
//! enum `net.wooga.uvm.Component` that stand for them.

use vstd::prelude::*;

verus! {

/// JNI name of the Java class whose static fields are the components.
pub const COMPONENT_CLASS: &'static str = "net/wooga/uvm/Component";

/// JNI type signature of one of those static fields.
pub const COMPONENT_FIELD_SIGNATURE: &'static str = "Lnet/wooga/uvm/Component;";

/// An installable sub-feature of an editor installation.
#[derive(Clone, Copy, Debug, PartialEq, Eq, Structural, Hash)]
pub enum Component {
    Android,
    Ios,
    TvOs,
    WebGl,
    Linux,
    Windows,
    WindowsMono,
    Editor,
    Mono,
    VisualStudio,
    MonoDevelop,
    StandardAssets,
    Documentation,
}

/// Name of the static field of the Java enum that stands for `c`.
pub open spec fn spec_field_name(c: Component) -> Seq<char> {
    match c {
        Component::Android => "android"@,
        Component::Ios => "ios"@,
        Component::TvOs => "tvOs"@,
        Component::WebGl => "webGl"@,
        Component::Linux => "linux"@,
        Component::Windows => "windows"@,
        Component::WindowsMono => "windowsMono"@,
        Component::Editor => "editor"@,
        Component::Mono => "mono"@,
        Component::VisualStudio => "visualStudio"@,
        Component::MonoDevelop => "monoDevelop"@,
        Component::StandardAssets => "standardAssets"@,
        Component::Documentation => "documentation"@,
    }
}

/// The name of the static field of `net.wooga.uvm.Component` that holds
/// the constant for `component`.
pub fn field_name(component: &Component) -> (r: &'static str)
    ensures
        r@ == spec_field_name(*component),
{
    match component {
        Component::Android => "android",
        Component::Ios => "ios",
        Component::TvOs => "tvOs",
        Component::WebGl => "webGl",
        Component::Linux => "linux",
        Component::Windows => "windows",
        Component::WindowsMono => "windowsMono",
        Component::Editor => "editor",
        Component::Mono => "mono",
        Component::VisualStudio => "visualStudio",
        Component::MonoDevelop => "monoDevelop",
        Component::StandardAssets => "standardAssets",
        Component::Documentation => "documentation",
    }
}

/// The field names for a list of components, in the same order: element
/// `i` of the Java array built from `components` is the constant named by
/// element `i` of the result.
pub fn field_names(components: &Vec<Component>) -> (r: Vec<&'static str>)
    ensures
        r@.len() == components@.len(),
        forall|i: int| 0 <= i < r@.len() ==> (#[trigger] r@[i])@ == spec_field_name(components@[i]),
{
    let mut names: Vec<&'static str> = Vec::with_capacity(components.len());
    let mut i: usize = 0;
    while i < components.len()
        invariant
            i <= components@.len(),
            names@.len() == i,
            forall|j: int| 0 <= j < i ==> (#[trigger] names@[j])@ == spec_field_name(components@[j]),
        decreases components@.len() - i,
    {
        names.push(field_name(&components[i]));
        i = i + 1;
    }
    names
}

/// Distinct components are stored in distinct static fields: the mapping
/// from components to Java enum constants is one-to-one.
pub proof fn lemma_field_name_injective(a: Component, b: Component)
    ensures
        spec_field_name(a) == spec_field_name(b) ==> a == b,
{
    reveal_strlit("android");
    reveal_strlit("ios");
    reveal_strlit("tvOs");
    reveal_strlit("webGl");
    reveal_strlit("linux");
    reveal_strlit("windows");
    reveal_strlit("windowsMono");
    reveal_strlit("editor");
    reveal_strlit("mono");
    reveal_strlit("visualStudio");
    reveal_strlit("monoDevelop");
    reveal_strlit("standardAssets");
    reveal_strlit("documentation");
    if spec_field_name(a) == spec_field_name(b) && a != b {
        let sa = spec_field_name(a);
        let sb = spec_field_name(b);
        assert(sa.len() == sb.len());
        assert(sa[0] == sb[0]);
        assert(sa[1] == sb[1]);
        assert(sa[sa.len() - 1] == sb[sb.len() - 1]);
    }
}

} // verus!
