//! Lower-cased domain names as sequences of labels.

use vstd::prelude::*;

verus! {

/// An error raised by a name that cannot be parsed.
#[verifier::external_type_specification]
#[verifier::external_body]
pub struct ExProtoError(hickory_proto::error::ProtoError);

/// What `hickory_proto`'s `LowerName::from_str` makes of a text: the labels of the
/// name (lower-cased) and whether it is fully qualified, or `None` where it refuses it.
pub uninterp spec fn lower_name_of_text(text: Seq<char>) -> Option<(Seq<Seq<u8>>, bool)>;

/// True when no byte of any label is an ASCII upper-case letter.
pub open spec fn labels_lower_case(labels: Seq<Seq<u8>>) -> bool {
    forall|i: int, j: int|
        0 <= i < labels.len() && 0 <= j < labels[i].len() ==> !(65 <= #[trigger] labels[i][j] <= 90)
}

/// True when every label holds between 1 and 63 bytes.
pub open spec fn labels_well_sized(labels: Seq<Seq<u8>>) -> bool {
    forall|i: int| 0 <= i < labels.len() ==> 1 <= #[trigger] labels[i].len() <= 63
}

/// A domain name whose labels are lower case, with the flag that marks it fully qualified.
#[derive(Debug, Clone)]
pub struct ZoneName {
    labels: Vec<Vec<u8>>,
    fqdn: bool,
}

impl View for ZoneName {
    type V = (Seq<Seq<u8>>, bool);

    closed spec fn view(&self) -> (Seq<Seq<u8>>, bool) {
        (self.labels.deep_view(), self.fqdn)
    }
}

/// Parses `text` with `hickory_proto`'s `LowerName::from_str` and takes its labels out.
///
/// Claimed: the result is the one `lower_name_of_text` names; on success every label is
/// lower case and 1 to 63 bytes long, and the name is fully qualified exactly when the
/// text ends with a dot (the parser sets the flag on that condition alone).
#[verifier::external_body]
fn lower_name_from_str(text: &str) -> (r: Result<ZoneName, hickory_proto::error::ProtoError>)
    ensures
        match r {
            Ok(n) => {
                &&& lower_name_of_text(text@) == Some(n@)
                &&& labels_lower_case(n@.0)
                &&& labels_well_sized(n@.0)
                &&& n@.1 == (text@.len() > 0 && text@.last() == '.')
            },
            Err(_) => lower_name_of_text(text@) is None,
        },
{
    let parsed: Result<hickory_proto::rr::LowerName, _> = std::str::FromStr::from_str(text);
    match parsed {
        Ok(lower) => {
            let name: hickory_proto::rr::Name = lower.into();
            Ok(ZoneName { labels: name.iter().map(|l| l.to_vec()).collect(), fqdn: name.is_fqdn() })
        },
        Err(e) => Err(e),
    }
}

/// A text that is not a valid domain name.
#[derive(Debug, Clone, Copy, PartialEq, Eq)]
pub struct InvalidName;

impl ZoneName {
    /// The labels of the name, most specific first.
    pub fn labels(&self) -> (r: &Vec<Vec<u8>>)
        ensures
            r.deep_view() == self@.0,
    {
        &self.labels
    }

    /// Parses a domain name such as `"www.example.com."`, lower-casing its labels.
    pub fn parse(text: &str) -> (r: Result<ZoneName, InvalidName>)
        ensures
            match r {
                Ok(n) => {
                    &&& lower_name_of_text(text@) == Some(n@)
                    &&& labels_lower_case(n@.0)
                    &&& labels_well_sized(n@.0)
                    &&& n@.1 == (text@.len() > 0 && text@.last() == '.')
                },
                Err(_) => lower_name_of_text(text@) is None,
            },
    {
        match lower_name_from_str(text) {
            Ok(n) => Ok(n),
            Err(_) => Err(InvalidName),
        }
    }

    /// A name made of `labels` (most specific first), if each is 1 to 63 bytes long and
    /// holds no ASCII upper-case letter, as the labels of a lower-cased name do.
    pub fn from_labels(labels: Vec<Vec<u8>>, fqdn: bool) -> (r: Result<ZoneName, InvalidName>)
        ensures
            r is Ok <==> labels_lower_case(labels.deep_view()) && labels_well_sized(labels.deep_view()),
            r matches Ok(n) ==> n@ == (labels.deep_view(), fqdn),
    {
        let mut i: usize = 0;
        while i < labels.len()
            invariant
                i <= labels@.len(),
                forall|k: int, j: int|
                    0 <= k < i && 0 <= j < labels.deep_view()[k].len() ==> !(65 <= #[trigger] labels.deep_view()[k][j] <= 90),
                forall|k: int| 0 <= k < i ==> 1 <= #[trigger] labels.deep_view()[k].len() <= 63,
            decreases labels@.len() - i,
        {
            let label = &labels[i];
            assert(labels.deep_view()[i as int] =~= label@);
            if label.len() < 1 || label.len() > 63 {
                assert(!labels_well_sized(labels.deep_view()));
                return Err(InvalidName);
            }
            let mut j: usize = 0;
            while j < label.len()
                invariant
                    j <= label@.len(),
                    i < labels@.len(),
                    labels.deep_view()[i as int] == label@,
                    forall|m: int| 0 <= m < j ==> !(65 <= #[trigger] label@[m] <= 90),
                decreases label@.len() - j,
            {
                if 65 <= label[j] && label[j] <= 90 {
                    let ghost dv = labels.deep_view();
                    assert(dv[i as int][j as int] == label@[j as int]);
                    assert(65 <= dv[i as int][j as int] <= 90);
                    assert(0 <= j < dv[i as int].len());
                    assert(0 <= i < dv.len());
                    assert(!labels_lower_case(dv)) by {
                        if labels_lower_case(dv) {
                            assert(!(65 <= dv[i as int][j as int] <= 90));
                        }
                    }
                    return Err(InvalidName);
                }
                j = j + 1;
            }
            i = i + 1;
        }
        Ok(ZoneName { labels, fqdn })
    }

    /// The root name `.`: no labels, fully qualified.
    pub fn root() -> (r: ZoneName)
        ensures
            r@ == (Seq::<Seq<u8>>::empty(), true),
    {
        let r = ZoneName { labels: Vec::new(), fqdn: true };
        assert(r.labels.deep_view() =~= Seq::<Seq<u8>>::empty());
        r
    }

    /// True for the root name: no labels and fully qualified.
    pub fn is_root(&self) -> (r: bool)
        ensures
            r == (self@.0.len() == 0 && self@.1),
    {
        self.labels.len() == 0 && self.fqdn
    }

    /// True when the name is fully qualified.
    pub fn is_fqdn(&self) -> (r: bool)
        ensures
            r == self@.1,
    {
        self.fqdn
    }

    /// The number of labels.
    pub fn label_count(&self) -> (r: usize)
        ensures
            r == self@.0.len(),
    {
        self.labels.len()
    }

    /// The name without its first label, fully qualified; a name without labels is
    /// returned unchanged.
    pub fn base_name(&self) -> (r: ZoneName)
        ensures
            self@.0.len() > 0 ==> r@ == (self@.0.drop_first(), true),
            self@.0.len() == 0 ==> r@ == self@,
    {
        let n: usize = self.labels.len();
        if n == 0 {
            let r = ZoneName { labels: Vec::new(), fqdn: self.fqdn };
            assert(r.labels.deep_view() =~= self.labels.deep_view());
            return r;
        }
        let mut labels: Vec<Vec<u8>> = Vec::new();
        let mut i: usize = 1;
        while i < n
            invariant
                1 <= i <= n,
                n == self.labels@.len(),
                labels@.len() == i - 1,
                forall|k: int| 0 <= k < i - 1 ==> #[trigger] labels@[k]@ == self.labels@[k + 1]@,
            decreases n - i,
        {
            labels.push(copy_bytes(&self.labels[i]));
            i = i + 1;
        }
        let r = ZoneName { labels, fqdn: true };
        assert(r.labels.deep_view() =~= self.labels.deep_view().drop_first());
        r
    }

    /// True when both names have the same labels; the qualification flag is not compared.
    pub fn same_labels(&self, other: &ZoneName) -> (r: bool)
        ensures
            r == (self@.0 == other@.0),
    {
        labels_equal(&self.labels, &other.labels)
    }
}

/// A copy of a byte string.
fn copy_bytes(b: &Vec<u8>) -> (r: Vec<u8>)
    ensures
        r@ == b@,
{
    let mut r: Vec<u8> = Vec::new();
    let mut i: usize = 0;
    while i < b.len()
        invariant
            i <= b@.len(),
            r@ == b@.subrange(0, i as int),
        decreases b@.len() - i,
    {
        r.push(b[i]);
        i = i + 1;
        assert(r@ =~= b@.subrange(0, i as int));
    }
    assert(r@ =~= b@);
    r
}

/// True when two byte strings are equal.
fn bytes_equal(a: &Vec<u8>, b: &Vec<u8>) -> (r: bool)
    ensures
        r == (a@ == b@),
{
    if a.len() != b.len() {
        return false;
    }
    let mut i: usize = 0;
    while i < a.len()
        invariant
            i <= a@.len(),
            a@.len() == b@.len(),
            forall|k: int| 0 <= k < i ==> a@[k] == b@[k],
        decreases a@.len() - i,
    {
        if a[i] != b[i] {
            return false;
        }
        i = i + 1;
    }
    assert(a@ =~= b@);
    true
}

/// True when two label sequences are equal.
fn labels_equal(a: &Vec<Vec<u8>>, b: &Vec<Vec<u8>>) -> (r: bool)
    ensures
        r == (a.deep_view() == b.deep_view()),
{
    if a.len() != b.len() {
        assert(a.deep_view().len() != b.deep_view().len());
        return false;
    }
    let mut i: usize = 0;
    while i < a.len()
        invariant
            i <= a@.len(),
            a@.len() == b@.len(),
            forall|k: int| 0 <= k < i ==> a@[k].deep_view() == b@[k].deep_view(),
        decreases a@.len() - i,
    {
        assert(a@[i as int].deep_view() =~= a@[i as int]@);
        assert(b@[i as int].deep_view() =~= b@[i as int]@);
        if !bytes_equal(&a[i], &b[i]) {
            assert(a.deep_view()[i as int] != b.deep_view()[i as int]);
            return false;
        }
        i = i + 1;
    }
    assert(a.deep_view() =~= b.deep_view());
    true
}

} // verus!
