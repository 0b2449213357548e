//! Semantic shadow of ActionBand production: the field-neutrality outcome and the bound
//! observables carried alongside a production, unchanged.
use vstd::prelude::*;

verus! {

/// Outcome of the field-neutrality gate: semantic designations never alter field values.
#[derive(Clone, Copy, Debug, PartialEq, Eq, Structural)]
pub enum FieldNeutralityGate {
    FieldNeutral,
}

/// Semantic designations are always field-neutral.
pub const FIELD_NEUTRALITY_OUTCOME: FieldNeutralityGate = FieldNeutralityGate::FieldNeutral;

/// An observable bound to a production: an opaque key with an optional provenance note.
#[derive(Debug, PartialEq, Eq)]
pub struct BoundObservableIdentity {
    key: String,
    provenance: Option<String>,
}

impl View for BoundObservableIdentity {
    type V = (Seq<char>, Option<Seq<char>>);

    closed spec fn view(&self) -> (Seq<char>, Option<Seq<char>>) {
        (self.key@, match self.provenance {
            Some(p) => Some(p@),
            None => None,
        })
    }
}

impl Clone for BoundObservableIdentity {
    fn clone(&self) -> (r: Self)
        ensures
            r == *self,
    {
        let provenance = match &self.provenance {
            Some(p) => Some(p.clone()),
            None => None,
        };
        BoundObservableIdentity { key: self.key.clone(), provenance }
    }
}

impl BoundObservableIdentity {
    pub fn new(key: &str, provenance: Option<&str>) -> (r: Self)
        ensures
            r@.0 == key@,
            r@.1 == (match provenance {
                Some(p) => Some(p@),
                None => None::<Seq<char>>,
            }),
    {
        let provenance = match provenance {
            Some(p) => Some(p.to_string()),
            None => None,
        };
        BoundObservableIdentity { key: key.to_string(), provenance }
    }

    pub fn key(&self) -> (r: &str)
        ensures
            r@ == self@.0,
    {
        self.key.as_str()
    }

    pub fn provenance(&self) -> (r: Option<&str>)
        ensures
            match r {
                Some(p) => self@.1 == Some(p@),
                None => self@.1 is None,
            },
    {
        match &self.provenance {
            Some(p) => Some(p.as_str()),
            None => None,
        }
    }
}

/// The bound observables carried through unchanged, in order.
pub fn carry_bound_observables(observables: &[BoundObservableIdentity]) -> (r: Vec<BoundObservableIdentity>)
    ensures
        r@ == observables@,
{
    let mut out: Vec<BoundObservableIdentity> = Vec::new();
    let mut k: usize = 0;
    while k < observables.len()
        invariant
            k <= observables@.len(),
            out@ == observables@.take(k as int),
        decreases observables@.len() - k,
    {
        out.push(observables[k].clone());
        proof {
            assert(out@ =~= observables@.take(k + 1));
        }
        k = k + 1;
    }
    proof {
        assert(observables@.take(observables@.len() as int) =~= observables@);
    }
    out
}

} // verus!
