//! Install variants, the integer codes by which the Java `Component` enum
//! selects them, and the set of variants that one install request asks for.

use vstd::prelude::*;

verus! {

/// A platform module that can be installed together with an editor.
#[derive(Clone, Copy, Debug, PartialEq, Eq, Structural, Hash)]
pub enum InstallVariant {
    Android,
    Ios,
    WebGl,
    Linux,
    Windows,
    WindowsMono,
}

/// The variant that a Java component code selects. Codes without a variant
/// of their own select `Android`.
pub open spec fn variant_of_code(code: i32) -> InstallVariant {
    if code == 0 {
        InstallVariant::Android
    } else if code == 1 {
        InstallVariant::Ios
    } else if code == 3 {
        InstallVariant::WebGl
    } else if code == 4 {
        InstallVariant::Linux
    } else if code == 5 {
        InstallVariant::Windows
    } else if code == 6 {
        InstallVariant::WindowsMono
    } else {
        InstallVariant::Android
    }
}

/// An install variant read from a Java component code.
#[derive(Clone, Copy, Debug, PartialEq, Eq, Structural)]
pub struct Variant(pub InstallVariant);

impl Variant {
    /// The install variant itself.
    pub fn value(self) -> (r: InstallVariant)
        ensures
            r == self.0,
    {
        self.0
    }
}

impl From<i32> for Variant {
    fn from(component: i32) -> (r: Variant)
        ensures
            r.0 == variant_of_code(component),
    {
        match component {
            0 => Variant(InstallVariant::Android),
            1 => Variant(InstallVariant::Ios),
            3 => Variant(InstallVariant::WebGl),
            4 => Variant(InstallVariant::Linux),
            5 => Variant(InstallVariant::Windows),
            6 => Variant(InstallVariant::WindowsMono),
            _ => Variant(InstallVariant::Android),
        }
    }
}

impl vstd::std_specs::convert::FromSpecImpl<i32> for Variant {
    open spec fn obeys_from_spec() -> bool {
        true
    }

    open spec fn from_spec(v: i32) -> Variant {
        Variant(variant_of_code(v))
    }
}

/// A set of install variants, each held once.
pub struct VariantSet {
    items: Vec<InstallVariant>,
}

impl VariantSet {
    /// The variants in the set.
    pub closed spec fn view(&self) -> Set<InstallVariant> {
        self.items@.to_set()
    }

    /// No variant is held twice.
    pub closed spec fn wf(&self) -> bool {
        self.items@.no_duplicates()
    }

    /// The empty set.
    pub fn new() -> (r: VariantSet)
        ensures
            r.wf(),
            r@ == Set::<InstallVariant>::empty(),
    {
        let r = VariantSet { items: Vec::new() };
        proof {
            assert(r.items@ =~= Seq::<InstallVariant>::empty());
            assert(r.items@.to_set() =~= Set::<InstallVariant>::empty());
        }
        r
    }

    /// Whether `v` is in the set.
    pub fn contains(&self, v: InstallVariant) -> (r: bool)
        requires
            self.wf(),
        ensures
            r == self@.contains(v),
    {
        let mut i: usize = 0;
        while i < self.items.len()
            invariant
                i <= self.items@.len(),
                forall|j: int| 0 <= j < i ==> self.items@[j] != v,
            decreases self.items@.len() - i,
        {
            if self.items[i] == v {
                assert(self.items@.contains(v));
                return true;
            }
            i = i + 1;
        }
        assert(!self.items@.contains(v));
        false
    }

    /// Adds `v`; returns whether it was not in the set before.
    pub fn insert(&mut self, v: InstallVariant) -> (r: bool)
        requires
            old(self).wf(),
        ensures
            final(self).wf(),
            final(self)@ == old(self)@.insert(v),
            r == !old(self)@.contains(v),
    {
        if self.contains(v) {
            proof {
                assert(self@.insert(v) =~= self@);
            }
            false
        } else {
            let ghost before = self.items@;
            self.items.push(v);
            proof {
                assert(self.items@ =~= before.push(v));
                before.lemma_push_to_set_commute(v);
            }
            true
        }
    }

    /// The number of variants in the set.
    pub fn len(&self) -> (r: usize)
        requires
            self.wf(),
        ensures
            r == self@.len(),
    {
        proof {
            self.items@.unique_seq_to_set();
        }
        self.items.len()
    }

    /// The variants, each once.
    pub fn to_vec(&self) -> (r: Vec<InstallVariant>)
        requires
            self.wf(),
        ensures
            r@.no_duplicates(),
            r@.to_set() == self@,
    {
        self.items.clone()
    }
}

/// The set of variants that the Java component codes `codes` select.
pub fn variants_of_codes(codes: &Vec<i32>) -> (r: VariantSet)
    ensures
        r.wf(),
        forall|v: InstallVariant|
            r@.contains(v) <==> exists|i: int| 0 <= i < codes@.len() && variant_of_code(#[trigger] codes@[i]) == v,
{
    let mut set = VariantSet::new();
    let mut i: usize = 0;
    while i < codes.len()
        invariant
            i <= codes@.len(),
            set.wf(),
            forall|v: InstallVariant|
                set@.contains(v) <==> exists|j: int| 0 <= j < i && variant_of_code(#[trigger] codes@[j]) == v,
        decreases codes@.len() - i,
    {
        let variant: Variant = Variant::from(codes[i]);
        set.insert(variant.value());
        proof {
            assert forall|v: InstallVariant|
                set@.contains(v) <==> exists|j: int| 0 <= j < i + 1 && variant_of_code(#[trigger] codes@[j]) == v by {
                if v == variant_of_code(codes@[i as int]) {
                    assert(0 <= i < i + 1);
                }
                if exists|j: int| 0 <= j < i + 1 && variant_of_code(#[trigger] codes@[j]) == v {
                    let j = choose|j: int| 0 <= j < i + 1 && variant_of_code(#[trigger] codes@[j]) == v;
                    if j < i {
                        assert(0 <= j < i);
                    }
                }
            }
        }
        i = i + 1;
    }
    set
}

/// The variants that an install request asks for: none stated when no
/// component array was passed, else those that the codes select.
pub fn requested_variants(codes: Option<Vec<i32>>) -> (r: Option<VariantSet>)
    ensures
        codes is None <==> r is None,
        codes is Some ==> r->Some_0.wf() && forall|v: InstallVariant|
            r->Some_0@.contains(v) <==> exists|i: int|
                0 <= i < codes->Some_0@.len() && variant_of_code(#[trigger] codes->Some_0@[i]) == v,
{
    match codes {
        Some(c) => Some(variants_of_codes(&c)),
        None => None,
    }
}

} // verus!
