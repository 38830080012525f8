//! The relation tuples of a Zanzibar-style authorization system: resources,
//! the relations and permissions that subjects have on them, and the
//! consistency that a request asks for.
use vstd::prelude::*;

verus! {

broadcast use vstd::string::group_string_axioms;

/// A unique entity that is being modelled: a namespace and an identifier,
/// often written as the two separated by a colon.
pub trait Resource {
    /// The namespace of this resource.
    spec fn spec_namespace(&self) -> Seq<char>;

    /// The identifier of this resource within its namespace.
    spec fn spec_id(&self) -> Seq<char>;

    /// The namespace of this resource.
    fn namespace(&self) -> (r: &str)
        ensures
            r@ == self.spec_namespace(),
    ;

    /// The identifier of this resource within its namespace.
    fn id(&self) -> (r: &str)
        ensures
            r@ == self.spec_id(),
    ;
}

/// The relation or permission of a subject to a resource of type `R`.
pub trait Affiliation<R: Resource> {
    /// The name of the relation or permission.
    spec fn spec_name(&self) -> Seq<char>;

    /// The name of the relation or permission.
    fn name(&self) -> (r: &str)
        ensures
            r@ == self.spec_name(),
    ;
}

/// A computed set of subjects for a resource of type `R`.
pub trait Permission<R: Resource>: Affiliation<R> {

}

/// The relationship between a subject and a resource of type `R`.
pub trait Relation<R: Resource>: Affiliation<R> {

}

/// A relation or permission that is not tied to a resource type, as when a
/// tuple is read from text.
#[derive(Debug, Clone, PartialEq, Eq, PartialOrd, Ord, Hash)]
pub struct GenericAffiliation<A>(pub A);

impl<R: Resource> Affiliation<R> for GenericAffiliation<String> {
    open spec fn spec_name(&self) -> Seq<char> {
        self.0@
    }

    fn name(&self) -> (r: &str) {
        self.0.as_str()
    }
}

impl<R: Resource> Permission<R> for GenericAffiliation<String> {

}

impl<R: Resource> Relation<R> for GenericAffiliation<String> {

}

/// A resource whose namespace and identifier are known only at run time.
#[derive(Debug, Clone, PartialEq, Eq, PartialOrd, Ord, Hash)]
pub struct GenericResource<N, I> {
    pub namespace: N,
    pub id: I,
}

impl Resource for GenericResource<String, String> {
    open spec fn spec_namespace(&self) -> Seq<char> {
        self.namespace@
    }

    open spec fn spec_id(&self) -> Seq<char> {
        self.id@
    }

    fn namespace(&self) -> (r: &str) {
        self.namespace.as_str()
    }

    fn id(&self) -> (r: &str) {
        self.id.as_str()
    }
}

/// Either a resource, or a resource together with an affiliation whose
/// subjects are all meant.
pub trait Subject {
    type Resource: Resource;

    type Affiliation: Affiliation<Self::Resource>;

    /// The namespace of the subject's resource.
    spec fn spec_resource_namespace(&self) -> Seq<char>;

    /// The identifier of the subject's resource.
    spec fn spec_resource_id(&self) -> Seq<char>;

    /// The name of the subject's affiliation, where it has one.
    spec fn spec_affiliation(&self) -> Option<Seq<char>>;

    /// The subject's resource.
    fn resource(&self) -> (r: &Self::Resource)
        ensures
            r.spec_namespace() == self.spec_resource_namespace(),
            r.spec_id() == self.spec_resource_id(),
    ;

    /// The subject's affiliation, where it has one.
    fn affiliation(&self) -> (r: Option<&Self::Affiliation>)
        ensures
            match r {
                Some(a) => self.spec_affiliation() == Some(a.spec_name()),
                None => self.spec_affiliation() is None,
            },
    ;
}

/// The affiliation of a subject that has none.
#[derive(Debug, Clone, Copy, PartialEq, Eq)]
pub struct NoAffiliation;

impl<R: Resource> Affiliation<R> for NoAffiliation {
    open spec fn spec_name(&self) -> Seq<char> {
        Seq::empty()
    }

    fn name(&self) -> (r: &str) {
        proof {
            reveal_strlit("");
        }
        ""
    }
}

/// Every resource is a subject of its own, without an affiliation.
impl<R: Resource> Subject for R {
    type Resource = R;

    type Affiliation = NoAffiliation;

    open spec fn spec_resource_namespace(&self) -> Seq<char> {
        self.spec_namespace()
    }

    open spec fn spec_resource_id(&self) -> Seq<char> {
        self.spec_id()
    }

    open spec fn spec_affiliation(&self) -> Option<Seq<char>> {
        None
    }

    fn resource(&self) -> (r: &R) {
        self
    }

    fn affiliation(&self) -> (r: Option<&NoAffiliation>) {
        None
    }
}

impl<R: Resource, A: Affiliation<R>> Subject for (R, A) {
    type Resource = R;

    type Affiliation = A;

    open spec fn spec_resource_namespace(&self) -> Seq<char> {
        self.0.spec_namespace()
    }

    open spec fn spec_resource_id(&self) -> Seq<char> {
        self.0.spec_id()
    }

    open spec fn spec_affiliation(&self) -> Option<Seq<char>> {
        Some(self.1.spec_name())
    }

    fn resource(&self) -> (r: &R) {
        &self.0
    }

    fn affiliation(&self) -> (r: Option<&A>) {
        Some(&self.1)
    }
}

/// A subject whose resource and affiliation types are known only at run
/// time.
#[derive(Debug, Clone, PartialEq, Eq, PartialOrd, Ord, Hash)]
pub struct GenericSubject<R, A> {
    pub resource: R,
    pub affiliation: Option<A>,
}

impl<R: Resource, A: Affiliation<R>> Subject for GenericSubject<R, A> {
    type Resource = R;

    type Affiliation = A;

    open spec fn spec_resource_namespace(&self) -> Seq<char> {
        self.resource.spec_namespace()
    }

    open spec fn spec_resource_id(&self) -> Seq<char> {
        self.resource.spec_id()
    }

    open spec fn spec_affiliation(&self) -> Option<Seq<char>> {
        match self.affiliation {
            Some(a) => Some(a.spec_name()),
            None => None,
        }
    }

    fn resource(&self) -> (r: &R) {
        &self.resource
    }

    fn affiliation(&self) -> (r: Option<&A>) {
        match &self.affiliation {
            Some(a) => Some(a),
            None => None,
        }
    }
}

/// A live relation between a resource and a subject.
#[derive(Debug, Clone, PartialEq, Eq, PartialOrd, Ord, Hash)]
pub struct Tuple<R, A, S> {
    pub resource: R,
    pub affiliation: A,
    pub subject: S,
}

/// The text of a tuple: `namespace:id#affiliation@namespace:id`, followed by
/// `#affiliation` where the subject has an affiliation.
pub open spec fn tuple_text(
    namespace: Seq<char>,
    id: Seq<char>,
    affiliation: Seq<char>,
    subject_namespace: Seq<char>,
    subject_id: Seq<char>,
    subject_affiliation: Option<Seq<char>>,
) -> Seq<char> {
    namespace + ":"@ + id + "#"@ + affiliation + "@"@ + subject_namespace + ":"@ + subject_id
        + match subject_affiliation {
        Some(a) => "#"@ + a,
        None => Seq::empty(),
    }
}

impl<R: Resource, A: Affiliation<R>, S: Subject> Tuple<R, A, S> {
    /// The text of this tuple.
    pub fn render(&self) -> (r: String)
        ensures
            r@ == tuple_text(
                self.resource.spec_namespace(),
                self.resource.spec_id(),
                self.affiliation.spec_name(),
                self.subject.spec_resource_namespace(),
                self.subject.spec_resource_id(),
                self.subject.spec_affiliation(),
            ),
    {
        let mut out = String::new();
        out.append(self.resource.namespace());
        out.append(":");
        out.append(self.resource.id());
        out.append("#");
        out.append(self.affiliation.name());
        out.append("@");
        let subject_resource = self.subject.resource();
        out.append(subject_resource.namespace());
        out.append(":");
        out.append(subject_resource.id());
        let ghost before = out@;
        match self.subject.affiliation() {
            Some(a) => {
                out.append("#");
                out.append(a.name());
            },
            None => {
                assert(out@ =~= before + Seq::<char>::empty());
            },
        }
        assert(out@ =~= tuple_text(
            self.resource.spec_namespace(),
            self.resource.spec_id(),
            self.affiliation.spec_name(),
            self.subject.spec_resource_namespace(),
            self.subject.spec_resource_id(),
            self.subject.spec_affiliation(),
        ));
        out
    }
}

/// A tuple whose parts are all held as text.
pub type StringTuple = Tuple<
    GenericResource<String, String>,
    GenericAffiliation<String>,
    GenericSubject<GenericResource<String, String>, GenericAffiliation<String>>,
>;

fn owned(s: &str) -> (r: String)
    ensures
        r@ == s@,
{
    s.to_owned()
}

impl Tuple<
    GenericResource<String, String>,
    GenericAffiliation<String>,
    GenericSubject<GenericResource<String, String>, GenericAffiliation<String>>,
> {
    /// The tuple of `resource`, `affiliation` and `subject`, with each part
    /// copied as text.
    pub fn from_tuple<R: Resource, A: Affiliation<R>, S: Subject>(
        resource: &R,
        affiliation: &A,
        subject: &S,
    ) -> (r: Self)
        ensures
            r.resource.namespace@ == resource.spec_namespace(),
            r.resource.id@ == resource.spec_id(),
            r.affiliation.0@ == affiliation.spec_name(),
            r.subject.resource.namespace@ == subject.spec_resource_namespace(),
            r.subject.resource.id@ == subject.spec_resource_id(),
            match r.subject.affiliation {
                Some(a) => subject.spec_affiliation() == Some(a.0@),
                None => subject.spec_affiliation() is None,
            },
    {
        let subject_resource = subject.resource();
        let subject_affiliation = match subject.affiliation() {
            Some(a) => Some(GenericAffiliation(owned(a.name()))),
            None => None,
        };
        Tuple {
            resource: GenericResource {
                namespace: owned(resource.namespace()),
                id: owned(resource.id()),
            },
            affiliation: GenericAffiliation(owned(affiliation.name())),
            subject: GenericSubject {
                resource: GenericResource {
                    namespace: owned(subject_resource.namespace()),
                    id: owned(subject_resource.id()),
                },
                affiliation: subject_affiliation,
            },
        }
    }
}

/// Causality metadata between write and check requests.
#[derive(Debug, Clone, PartialEq, Eq)]
pub struct Zookie(String);

impl Zookie {
    pub fn new(token: String) -> (r: Zookie)
        ensures
            r.spec_token() == token@,
    {
        Zookie(token)
    }

    /// The token that this zookie carries.
    pub closed spec fn spec_token(&self) -> Seq<char> {
        self.0@
    }

    /// The token that this zookie carries.
    pub fn as_str(&self) -> (r: &str)
        ensures
            r@ == self.spec_token(),
    {
        self.0.as_str()
    }
}

/// The consistency that a request asks for, trading fresh data for speed.
#[derive(Debug)]
pub enum Consistency {
    /// Use whatever caches are available.
    MinimalLatency,
    /// Use data at least as fresh as the zookie's point in time.
    AtLeastAsFresh(Zookie),
    /// Use the data of exactly the zookie's point in time.
    AtExactSnapshot(Zookie),
    /// Use the latest data.
    FullyConsistent,
}

} // verus!
