//! The service's data model: images, their states and formats, and owners.

use vstd::prelude::*;

use crate::error::Error;
use crate::text::{parse_uuid, random_uuid, uuid_parsed, uuid_v4_value};
use vstd::string::StrSliceExecFns;

verus! {

/// Unique identifier of an image, as the 128-bit value of its UUID.
#[derive(Clone, Copy, PartialEq, Eq, Hash, Debug, Structural)]
pub struct ImageId(pub u128);

/// The owner of an image: an identity-provider tenant and user object id,
/// each as the 128-bit value of its UUID.
#[derive(Clone, Copy, PartialEq, Eq, Hash, Debug, Structural)]
pub struct OwnerId {
    /// The tenant of the owner.
    pub tenant_id: u128,
    /// The object id of the user.
    pub oid: u128,
}

/// The index of the first underscore of `s`, if any.
pub open spec fn first_underscore(s: Seq<char>, i: int) -> bool {
    0 <= i < s.len() && s[i] == '_' && forall|j: int| 0 <= j < i ==> s[j] != '_'
}

/// The owner written as `tenant_oid`: split at the first underscore, each
/// half a UUID.
pub open spec fn owner_parsed(s: Seq<char>) -> Option<OwnerId> {
    if exists|i: int| first_underscore(s, i) {
        let i = choose|i: int| first_underscore(s, i);
        match (uuid_parsed(s.subrange(0, i)), uuid_parsed(s.subrange(i + 1, s.len() as int))) {
            (Some(t), Some(o)) => Some(OwnerId { tenant_id: t, oid: o }),
            _ => None,
        }
    } else {
        None
    }
}

impl ImageId {
    /// A new random identifier; `None` where the system's randomness fails.
    pub fn new() -> (r: Option<Self>)
        ensures
            r matches Some(i) ==> exists|b: Seq<u8>| b.len() == 16 && i.0 as int == uuid_v4_value(
                b,
            ),
    {
        match random_uuid() {
            Some(v) => Some(ImageId(v)),
            None => None,
        }
    }

    /// The identifier written in `s`.
    pub fn parse(s: &str) -> (r: Result<ImageId, ParseError>)
        ensures
            match uuid_parsed(s@) {
                Some(v) => r matches Ok(i) && i.0 == v,
                None => r is Err,
            },
    {
        match parse_uuid(s) {
            Some(v) => Ok(ImageId(v)),
            None => Err(ParseError),
        }
    }
}

impl core::str::FromStr for ImageId {
    type Err = ParseError;

    fn from_str(s: &str) -> Result<ImageId, ParseError> {
        ImageId::parse(s)
    }
}

impl OwnerId {
    /// The owner written as `tenant_oid`, each half a UUID.
    pub fn parse(s: &str) -> (r: Result<OwnerId, ParseError>)
        ensures
            match owner_parsed(s@) {
                Some(o) => r matches Ok(p) && p == o,
                None => r is Err,
            },
    {
        let n = s.unicode_len();
        let mut i: usize = 0;
        while i < n
            invariant
                n == s@.len(),
                i <= n,
                forall|j: int| 0 <= j < i ==> s@[j] != '_',
            decreases n - i,
        {
            if s.get_char(i) == '_' {
                assert(first_underscore(s@, i as int));
                let tenant = parse_uuid(s.substring_char(0, i));
                let oid = parse_uuid(s.substring_char(i + 1, n));
                proof {
                    assert forall|k: int| first_underscore(s@, k) implies k == i by {
                        if k < i {
                        } else if k > i {
                            assert(s@[i as int] == '_');
                        }
                    }
                }
                return match (tenant, oid) {
                    (Some(t), Some(o)) => Ok(OwnerId { tenant_id: t, oid: o }),
                    _ => Err(ParseError),
                };
            }
            i = i + 1;
        }
        Err(ParseError)
    }

    /// The owner of the sample images.
    pub fn samples() -> (r: Self)
        ensures
            r.tenant_id == 0 && r.oid == 0,
    {
        OwnerId { tenant_id: 0, oid: 0 }
    }
}

/// State of an image's analysis.
#[derive(Clone, Copy, PartialEq, Eq, Debug, Structural)]
pub enum ImageState {
    /// The service has not been told that the upload completed.
    WaitingForUpload,
    /// The image is ready to be queued.
    ToQueue,
    /// The image is queued for analysis.
    Queued,
    /// The image is being analyzed.
    Running,
    /// The results of the analysis are being uploaded.
    Finalizing,
    /// The analysis completed successfully.
    Completed,
    /// The analysis failed.
    Failed,
    /// The image and its artifacts are being deleted.
    Deleting,
}

/// Every state, in declaration order.
pub open spec fn all_states() -> Seq<ImageState> {
    seq![
        ImageState::WaitingForUpload,
        ImageState::ToQueue,
        ImageState::Queued,
        ImageState::Running,
        ImageState::Finalizing,
        ImageState::Completed,
        ImageState::Failed,
        ImageState::Deleting,
    ]
}

/// The states from which an image can be analyzed again.
pub open spec fn reimageable(s: ImageState) -> bool {
    s is Failed || s is Completed || s is Finalizing
}

/// The name of a state on the wire.
pub open spec fn state_name(s: ImageState) -> Seq<char> {
    match s {
        ImageState::WaitingForUpload => "waiting_for_upload"@,
        ImageState::ToQueue => "to_queue"@,
        ImageState::Queued => "queued"@,
        ImageState::Running => "running"@,
        ImageState::Finalizing => "finalizing"@,
        ImageState::Completed => "completed"@,
        ImageState::Failed => "failed"@,
        ImageState::Deleting => "deleting"@,
    }
}

impl ImageState {
    /// The state is terminal: the job moves no further.
    pub fn is_terminal(&self) -> (r: bool)
        ensures
            r == (*self is Completed || *self is Failed),
    {
        match self {
            ImageState::Completed | ImageState::Failed => true,
            _ => false,
        }
    }

    /// An image in this state can be analyzed again.
    pub fn can_reimage(&self) -> (r: bool)
        ensures
            r == reimageable(*self),
    {
        match self {
            ImageState::WaitingForUpload
            | ImageState::Running
            | ImageState::Deleting
            | ImageState::ToQueue
            | ImageState::Queued => false,
            ImageState::Failed | ImageState::Completed | ImageState::Finalizing => true,
        }
    }

    /// Every state, in declaration order.
    pub fn variants() -> (r: Vec<ImageState>)
        ensures
            r@ == all_states(),
    {
        let r = vec![
            ImageState::WaitingForUpload,
            ImageState::ToQueue,
            ImageState::Queued,
            ImageState::Running,
            ImageState::Finalizing,
            ImageState::Completed,
            ImageState::Failed,
            ImageState::Deleting,
        ];
        assert(r@ =~= all_states());
        r
    }

    /// The states from which an image can be analyzed again, in declaration
    /// order.
    pub fn can_reimage_states() -> (r: Vec<ImageState>)
        ensures
            r@ == all_states().filter(|s: ImageState| reimageable(s)),
    {
        let all = ImageState::variants();
        let mut results: Vec<ImageState> = Vec::new();
        for i in 0..all.len()
            invariant
                all@ == all_states(),
                results@ == all@.subrange(0, i as int).filter(|s: ImageState| reimageable(s)),
        {
            proof {
                reveal(Seq::filter);
                assert(all@.subrange(0, i + 1).drop_last() =~= all@.subrange(0, i as int));
            }
            if all[i].can_reimage() {
                results.push(all[i]);
            }
        }
        assert(all@.subrange(0, all@.len() as int) =~= all@);
        results
    }

    /// The name of the state on the wire.
    pub fn as_str(&self) -> (r: &'static str)
        ensures
            r@ == state_name(*self),
    {
        match self {
            ImageState::WaitingForUpload => "waiting_for_upload",
            ImageState::ToQueue => "to_queue",
            ImageState::Queued => "queued",
            ImageState::Running => "running",
            ImageState::Finalizing => "finalizing",
            ImageState::Completed => "completed",
            ImageState::Failed => "failed",
            ImageState::Deleting => "deleting",
        }
    }
}

/// Format of a memory snapshot.
#[derive(Clone, Copy, PartialEq, Eq, Debug, Structural)]
pub enum ImageFormat {
    /// Hyper-V checkpoint files.
    Vmrs,
    /// Raw memory dumps, such as made with `dd`.
    Raw,
    /// LiME memory dumps, as made by AVML or LiME.
    Lime,
    /// Full-system Linux core dumps.
    Core,
    /// Internal memory snapshot format.
    Avmh,
}

/// The name of a format, as text and as a file extension.
pub open spec fn format_name(f: ImageFormat) -> Seq<char> {
    match f {
        ImageFormat::Vmrs => "vmrs"@,
        ImageFormat::Raw => "raw"@,
        ImageFormat::Lime => "lime"@,
        ImageFormat::Core => "core"@,
        ImageFormat::Avmh => "avmh"@,
    }
}

/// The format named `s`, if any.
pub open spec fn format_named(s: Seq<char>) -> Option<ImageFormat> {
    if s == "vmrs"@ {
        Some(ImageFormat::Vmrs)
    } else if s == "raw"@ {
        Some(ImageFormat::Raw)
    } else if s == "lime"@ {
        Some(ImageFormat::Lime)
    } else if s == "core"@ {
        Some(ImageFormat::Core)
    } else if s == "avmh"@ {
        Some(ImageFormat::Avmh)
    } else {
        None
    }
}

/// Error converting text into an `ImageFormat`.
#[derive(Debug)]
pub struct ParseError;

impl ImageFormat {
    /// The name of the format.
    pub fn as_str(&self) -> (r: &'static str)
        ensures
            r@ == format_name(*self),
    {
        match self {
            ImageFormat::Vmrs => "vmrs",
            ImageFormat::Raw => "raw",
            ImageFormat::Lime => "lime",
            ImageFormat::Core => "core",
            ImageFormat::Avmh => "avmh",
        }
    }

    /// The format with this exact name.
    pub fn parse(s: &str) -> (r: Result<ImageFormat, ParseError>)
        ensures
            match format_named(s@) {
                Some(f) => r matches Ok(g) && g == f,
                None => r is Err,
            },
    {
        let t = s.to_owned();
        if t == "vmrs".to_owned() {
            Ok(ImageFormat::Vmrs)
        } else if t == "raw".to_owned() {
            Ok(ImageFormat::Raw)
        } else if t == "lime".to_owned() {
            Ok(ImageFormat::Lime)
        } else if t == "core".to_owned() {
            Ok(ImageFormat::Core)
        } else if t == "avmh".to_owned() {
            Ok(ImageFormat::Avmh)
        } else {
            Err(ParseError)
        }
    }

    /// The format of a snapshot file by its extension; a missing or unknown
    /// extension is an error.
    pub fn from_extension(ext: Option<&str>) -> (r: Result<ImageFormat, Error>)
        ensures
            match ext {
                None => r matches Err(Error::Extension(m)) && m@ == "missing file extension"@,
                Some(e) => match format_named(e@) {
                    Some(f) => r matches Ok(g) && g == f,
                    None => r matches Err(Error::Extension(m)) && m@ == e@,
                },
            },
    {
        match ext {
            None => Err(Error::Extension("missing file extension".to_owned())),
            Some(e) => match ImageFormat::parse(e) {
                Ok(f) => Ok(f),
                Err(_) => Err(Error::Extension(e.to_owned())),
            },
        }
    }
}

impl core::str::FromStr for OwnerId {
    type Err = ParseError;

    fn from_str(s: &str) -> Result<OwnerId, ParseError> {
        OwnerId::parse(s)
    }
}

impl core::str::FromStr for ImageFormat {
    type Err = ParseError;

    fn from_str(s: &str) -> Result<ImageFormat, ParseError> {
        ImageFormat::parse(s)
    }
}

/// An image entry of the service: one submitted snapshot and its analysis.
pub struct Image {
    /// Nanoseconds since the epoch of the entry's last update, if known.
    pub last_updated: Option<i128>,
    /// The owner of the image.
    pub owner_id: OwnerId,
    /// The identifier of the image.
    pub image_id: ImageId,
    /// The state of the analysis.
    pub state: ImageState,
    /// The format of the snapshot.
    pub format: ImageFormat,
    /// The error of the last analysis, where it failed.
    pub error: Option<String>,
    /// Capability URL of the snapshot.
    pub image_url: Option<String>,
    /// Capability URL of the artifacts container.
    pub artifacts_url: Option<String>,
    /// Metadata, with unique keys.
    pub tags: Vec<(String, String)>,
    /// Authenticated users that know the id may read the image.
    pub shareable: bool,
}

impl Image {
    /// A new image entry awaiting its upload.
    pub fn new(
        owner_id: OwnerId,
        image_id: ImageId,
        format: ImageFormat,
        tags: Vec<(String, String)>,
    ) -> (r: Self)
        ensures
            r.last_updated is None,
            r.owner_id == owner_id,
            r.image_id == image_id,
            r.state is WaitingForUpload,
            r.format == format,
            r.error is None,
            r.image_url is None,
            r.artifacts_url is None,
            r.tags == tags,
            !r.shareable,
    {
        Image {
            last_updated: None,
            owner_id,
            image_id,
            state: ImageState::WaitingForUpload,
            format,
            error: None,
            image_url: None,
            artifacts_url: None,
            tags,
            shareable: false,
        }
    }
}

} // verus!
