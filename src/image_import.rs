//! The import workflow of connector images into containerd: namespaces,
//! the steps of the workflow, and the reading of `ctr images ls` output.
use vstd::prelude::*;
use crate::error::{AcmError, ErrorKind, is_error};
use crate::config::Secret;
use crate::names::{is_rfc1035_label, is_uuid, rfc1035_label, uuid};
use crate::text::string_from_chars;

verus! {

/// `s` cut at every `c`: the pieces between separators, in order, empty
/// pieces included.
pub open spec fn split_on(s: Seq<char>, c: char) -> Seq<Seq<char>>
    decreases s.len(),
{
    if s.len() == 0 {
        seq![Seq::empty()]
    } else {
        let rest = split_on(s.drop_last(), c);
        if s.last() == c {
            rest.push(Seq::empty())
        } else {
            rest.update(rest.len() - 1, rest.last().push(s.last()))
        }
    }
}

proof fn lemma_split_nonempty(s: Seq<char>, c: char)
    ensures
        split_on(s, c).len() >= 1,
    decreases s.len(),
{
    if s.len() > 0 {
        lemma_split_nonempty(s.drop_last(), c);
    }
}

/// The views of some strings.
pub open spec fn views(v: Seq<String>) -> Seq<Seq<char>> {
    v.map_values(|x: String| x@)
}

/// Cuts `s` at every `c`.
pub fn split(s: &str, c: char) -> (r: Vec<String>)
    ensures
        views(r@) == split_on(s@, c),
{
    let n = s.unicode_len();
    let mut fields: Vec<String> = Vec::new();
    let mut cur: Vec<char> = Vec::new();
    let mut i: usize = 0;
    assert(s@.take(0) =~= Seq::<char>::empty());
    assert(views(fields@).push(cur@) =~= seq![Seq::<char>::empty()]);
    while i < n
        invariant
            n == s@.len(),
            i <= n,
            views(fields@).push(cur@) == split_on(s@.take(i as int), c),
        decreases n - i,
    {
        let ch = s.get_char(i);
        let ghost prev = s@.take(i as int);
        assert(s@.take(i + 1).drop_last() =~= prev);
        assert(s@.take(i + 1).last() == ch);
        proof { lemma_split_nonempty(prev, c); }
        if ch == c {
            let piece = string_from_chars(&cur);
            fields.push(piece);
            cur = Vec::new();
            assert(views(fields@).push(cur@) =~= split_on(prev, c).push(Seq::empty()));
        } else {
            let ghost before = cur@;
            cur.push(ch);
            assert(views(fields@).push(cur@) =~= split_on(prev, c).update(split_on(prev, c).len() - 1, before.push(ch)));
        }
        i = i + 1;
    }
    assert(s@.take(n as int) =~= s@);
    let last = string_from_chars(&cur);
    fields.push(last);
    assert(views(fields@) =~= split_on(s@, c));
    fields
}

/// The position of the last `c` in `s`, if any.
pub open spec fn last_index_of(s: Seq<char>, c: char) -> Option<int>
    decreases s.len(),
{
    if s.len() == 0 {
        None
    } else if s.last() == c {
        Some(s.len() - 1)
    } else {
        last_index_of(s.drop_last(), c)
    }
}

proof fn lemma_last_index_bounds(s: Seq<char>, c: char)
    ensures
        last_index_of(s, c) matches Some(i) ==> 0 <= i < s.len() && s[i] == c,
    decreases s.len(),
{
    if s.len() > 0 && s.last() != c {
        lemma_last_index_bounds(s.drop_last(), c);
    }
}

/// What follows the last `:` of an image reference: its tag.
pub open spec fn tag_of(reference: Seq<char>) -> Option<Seq<char>> {
    match last_index_of(reference, ':') {
        Some(i) => Some(reference.skip(i + 1)),
        None => None,
    }
}

/// The tag of `reference`, if it has one.
pub fn tag(reference: &str) -> (r: Option<String>)
    ensures
        r is Some <==> tag_of(reference@) is Some,
        r matches Some(t) ==> tag_of(reference@) == Some(t@),
{
    let n = reference.unicode_len();
    let mut i: usize = n;
    assert(reference@.take(n as int) =~= reference@);
    while i > 0
        invariant
            i <= n,
            n == reference@.len(),
            last_index_of(reference@, ':') == last_index_of(reference@.take(i as int), ':'),
        decreases i,
    {
        let k = i - 1;
        assert(reference@.take(i as int).drop_last() =~= reference@.take(k as int));
        if reference.get_char(k) == ':' {
            return Some(String::from_str(reference.substring_char(i, n)));
        }
        i = k;
    }
    None
}

/// What `ctr images ls` said of the one image of a fresh namespace: its
/// reference, its tag and its digest.
pub open spec fn image_listing(output: Seq<char>) -> Result<(Seq<char>, Seq<char>, Seq<char>), ErrorKind> {
    let lines = split_on(output, '\n');
    if lines.len() == 1 {
        Err(ErrorKind::CtrImageLsNoData)
    } else if lines.len() != 2 {
        Err(ErrorKind::UnexpectedContainerdImageLsFormat)
    } else {
        let row = split_on(lines[1], ' ');
        if row.len() < 3 {
            Err(ErrorKind::UnexpectedContainerdImageRow)
        } else {
            match tag_of(row[0]) {
                None => Err(ErrorKind::UnexpectedImageReferenceFormat),
                Some(t) => Ok((row[0], t, row[2])),
            }
        }
    }
}

/// The cause that a failed reading of `output` carries: the namespace when
/// only the header came, the row's reference when it has no tag, and the
/// whole output otherwise.
pub open spec fn listing_cause(namespace: Seq<char>, output: Seq<char>) -> Seq<char> {
    let lines = split_on(output, '\n');
    if lines.len() == 1 {
        namespace
    } else if lines.len() == 2 && split_on(lines[1], ' ').len() >= 3 {
        split_on(lines[1], ' ')[0]
    } else {
        output
    }
}

/// A temporary containerd namespace, named by a random identifier, in which
/// one image is imported, retagged and pushed.
pub struct Namespace {
    pub namespace: String,
}

impl Namespace {
    /// A namespace with a fresh random name.
    pub fn new() -> (r: Namespace)
        ensures
            is_uuid(r.namespace@),
    {
        Namespace { namespace: uuid() }
    }

    /// The name of the namespace.
    pub fn as_str(&self) -> (r: &str)
        ensures
            r@ == self.namespace@,
    {
        self.namespace.as_str()
    }
}

/// The first step of the workflow: importing an image into a namespace.
pub struct Import<'a> {
    pub namespace: &'a Namespace,
}

/// The workflow that starts in a namespace.
pub struct WorkFlow {}

impl WorkFlow {
    /// The import step of a workflow in `namespace`.
    pub fn new_workflow(namespace: &Namespace) -> (r: Import<'_>)
        ensures
            r.namespace == namespace,
    {
        Import { namespace }
    }
}

/// An image imported into a namespace and not yet pushed.
pub struct TmpImage<'a> {
    pub reference: String,
    pub tag: String,
    pub digest: String,
    pub namespace: &'a Namespace,
}

/// The retag step: the imported image gets the registry's name.
pub struct Retag<'a> {
    pub image: TmpImage<'a>,
}

/// The push step: the retagged image goes to the registry.
pub struct Push<'a> {
    pub image: TmpImage<'a>,
}

/// An image of the registry: its tag and its content digest.
#[derive(Debug)]
pub struct Image {
    pub tag: String,
    pub digest: String,
}

impl<'a> TmpImage<'a> {
    /// The image that the workflow hands back: its tag and digest.
    pub fn image(&self) -> (r: Image)
        ensures
            r.tag == self.tag,
            r.digest == self.digest,
    {
        Image { tag: self.tag.clone(), digest: self.digest.clone() }
    }
}

/// `ctr images ls` gave only its header.
pub enum CtrImageLs {
    NoData { namespace: String, header: String },
}

impl CtrImageLs {
    /// This failure as an error, with the namespace as its cause.
    pub fn error(self) -> (r: AcmError)
        ensures
            self matches CtrImageLs::NoData { namespace, .. } ==> is_error(r, ErrorKind::CtrImageLsNoData, Some(namespace)),
    {
        match self {
            CtrImageLs::NoData { namespace, .. } => AcmError::new(ErrorKind::CtrImageLsNoData, Some(namespace)),
        }
    }
}

impl<'a> Import<'a> {
    /// Reads the output of `ctr -n <namespace> images ls` for a namespace that
    /// holds exactly one image: a header line and one row, whose first column
    /// is the image reference (ending in `:<tag>`) and whose third is the digest.
    pub fn extract_image_metadata_from_str(namespace: &str, images_ls: &str)
        -> (r: Result<(String, String, String), AcmError>)
        ensures
            r is Ok <==> image_listing(images_ls@) is Ok,
            r matches Ok(t) ==> image_listing(images_ls@) == Ok::<(Seq<char>, Seq<char>, Seq<char>), ErrorKind>((t.0@, t.1@, t.2@)),
            r matches Err(e) ==> image_listing(images_ls@) == Err::<(Seq<char>, Seq<char>, Seq<char>), ErrorKind>(e.kind),
            r matches Err(e) ==> (e.cause matches Some(c) && c@ == listing_cause(namespace@, images_ls@)),
            r matches Err(e) ==> e.message@ == crate::error::message_of(e.kind),
    {
        let lines = split(images_ls, '\n');
        proof { lemma_split_nonempty(images_ls@, '\n'); }
        assert(lines@.len() == split_on(images_ls@, '\n').len());
        if lines.len() == 1 {
            let header = lines[0].clone();
            return Err(CtrImageLs::NoData { namespace: String::from_str(namespace), header }.error());
        }
        if lines.len() != 2 {
            return Err(AcmError::new(ErrorKind::UnexpectedContainerdImageLsFormat, Some(String::from_str(images_ls))));
        }
        assert(lines@[1]@ == split_on(images_ls@, '\n')[1]);
        let row = split(lines[1].as_str(), ' ');
        assert(row@.len() == split_on(lines@[1]@, ' ').len());
        if row.len() < 3 {
            return Err(AcmError::new(ErrorKind::UnexpectedContainerdImageRow, Some(String::from_str(images_ls))));
        }
        assert(row@[0]@ == split_on(lines@[1]@, ' ')[0]);
        assert(row@[2]@ == split_on(lines@[1]@, ' ')[2]);
        let reference = row[0].clone();
        let digest = row[2].clone();
        match tag(reference.as_str()) {
            None => Err(AcmError::new(ErrorKind::UnexpectedImageReferenceFormat, Some(reference))),
            Some(t) => Ok((reference, t, digest)),
        }
    }
}

/// The reference of an image in the configured repository: `registry/repository:tag`.
pub open spec fn reference_in(registry: Seq<char>, repository: Seq<char>, tag: Seq<char>) -> Seq<char> {
    registry + "/"@ + repository + ":"@ + tag
}

impl<'a> Retag<'a> {
    /// The image under its new name: a fresh RFC 1035 label as its tag, in
    /// `registry/repository`, with the same digest and namespace.
    pub fn retagged(self, registry: &str, repository: &str) -> (r: Push<'a>)
        ensures
            is_rfc1035_label(r.image.tag@),
            r.image.reference@ == reference_in(registry@, repository@, r.image.tag@),
            r.image.digest == self.image.digest,
            r.image.namespace == self.image.namespace,
    {
        let tag = rfc1035_label();
        let mut reference = String::from_str(registry);
        reference.append("/");
        reference.append(repository);
        reference.append(":");
        reference.append(tag.as_str());
        Push { image: TmpImage { reference, tag, digest: self.image.digest, namespace: self.image.namespace } }
    }
}

impl<'a> Push<'a> {
    /// The image that the push hands back.
    pub fn pushed(&self) -> (r: Image)
        ensures
            r.tag == self.image.tag,
            r.digest == self.image.digest,
    {
        self.image.image()
    }

    /// The `user:password` credentials of a push, kept secret.
    pub fn credentials(username: &str, password: &Secret) -> (r: Secret)
        ensures
            r.secret@ == username@ + ":"@ + password.secret@,
    {
        let mut text = String::from_str(username);
        text.append(":");
        text.append(password.raw_secret());
        Secret::from(text)
    }
}

/// What to do after one attempt to remove a temporary namespace or image.
#[derive(Clone, Copy, Debug, PartialEq, Eq, Structural)]
pub enum CleanupAction {
    /// Try again after so many milliseconds.
    Retry(u64),
    /// Stop trying; the resource is left behind.
    GiveUp,
    /// The resource is gone.
    Done,
}

/// After an attempt at removal: done when it succeeded, otherwise another
/// attempt after the backoff's next pause, or none once the backoff gave up.
pub fn cleanup_next(succeeded: bool, pause_ms: Option<u64>) -> (r: CleanupAction)
    ensures
        succeeded ==> r == CleanupAction::Done,
        pause_ms matches Some(p) ==> (!succeeded ==> r == CleanupAction::Retry(p)),
        !succeeded && pause_ms is None ==> r == CleanupAction::GiveUp,
{
    if succeeded {
        CleanupAction::Done
    } else {
        match pause_ms {
            Some(p) => CleanupAction::Retry(p),
            None => CleanupAction::GiveUp,
        }
    }
}

} // verus!
