use vstd::prelude::*;

verus! {

/// Identifier that the conversion provider issued for one submitted job.
/// Two ids are the same job exactly when their strings are equal.
#[derive(Hash, Clone, Debug)]
pub struct JobId(pub String);

impl View for JobId {
    type V = Seq<char>;

    open spec fn view(&self) -> Seq<char> {
        self.0@
    }
}

impl JobId {
    /// The provider's raw identifier.
    pub fn as_string(&self) -> (r: &String)
        ensures
            r@ == self@,
    {
        &self.0
    }

    /// A copy that equals `self`.
    pub fn duplicate(&self) -> (r: JobId)
        ensures
            r == *self,
    {
        JobId(self.0.clone())
    }
}

impl PartialEq for JobId {
    fn eq(&self, other: &JobId) -> (r: bool) {
        self.0 == other.0
    }
}

impl vstd::std_specs::cmp::PartialEqSpecImpl for JobId {
    open spec fn obeys_eq_spec() -> bool {
        true
    }

    open spec fn eq_spec(&self, other: &JobId) -> bool {
        self@ == other@
    }
}

impl Eq for JobId {
}

impl From<String> for JobId {
    fn from(value: String) -> (r: JobId) {
        JobId(value)
    }
}

impl vstd::std_specs::convert::FromSpecImpl<String> for JobId {
    open spec fn obeys_from_spec() -> bool {
        true
    }

    open spec fn from_spec(value: String) -> JobId {
        JobId(value)
    }
}

impl From<JobId> for String {
    fn from(value: JobId) -> (r: String) {
        value.0
    }
}

impl vstd::std_specs::convert::FromSpecImpl<JobId> for String {
    open spec fn obeys_from_spec() -> bool {
        true
    }

    open spec fn from_spec(value: JobId) -> String {
        value.0
    }
}

} // verus!
