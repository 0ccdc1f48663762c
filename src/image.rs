//! Image metadata and the image operations.

use vstd::prelude::*;
use vstd::string::*;
use crate::ident::{is_timestamp, lower_hex, now_rfc3339, random_u128, to_lower_hex};

verus! {

/// An image record.
#[derive(Clone, Debug)]
pub struct Image {
    pub id: String,
    pub repository: String,
    pub tag: String,
    pub size: u64,
    pub created: String,
    pub digest: Option<String>,
}

/// An `Image` with its strings seen as character sequences.
pub struct ImageView {
    pub id: Seq<char>,
    pub repository: Seq<char>,
    pub tag: Seq<char>,
    pub size: u64,
    pub created: Seq<char>,
    pub digest: Option<Seq<char>>,
}

impl View for Image {
    type V = ImageView;

    open spec fn view(&self) -> ImageView {
        ImageView {
            id: self.id@,
            repository: self.repository@,
            tag: self.tag@,
            size: self.size,
            created: self.created@,
            digest: match self.digest {
                Some(d) => Some(d@),
                None => None,
            },
        }
    }
}

/// An image manifest: its configuration blob and its layers.
#[derive(Clone, Debug)]
pub struct ImageManifest {
    pub schema_version: u32,
    pub media_type: String,
    pub config: ManifestConfig,
    pub layers: Vec<ManifestLayer>,
}

/// The configuration blob that a manifest refers to.
#[derive(Clone, Debug)]
pub struct ManifestConfig {
    pub media_type: String,
    pub size: u64,
    pub digest: String,
}

/// A layer blob that a manifest refers to.
#[derive(Clone, Debug)]
pub struct ManifestLayer {
    pub media_type: String,
    pub size: u64,
    pub digest: String,
}

/// An image as the container runtime reports it.
#[derive(Clone, Debug)]
pub struct ImageInfo {
    pub id: String,
    pub repo_tags: Vec<String>,
    pub size: i64,
    pub created: i64,
}

/// The views of a sequence of images.
pub open spec fn image_views(s: Seq<Image>) -> Seq<ImageView> {
    s.map_values(|i: Image| i@)
}

/// An image record with a digest.
pub open spec fn listed_view(
    id: Seq<char>,
    repository: Seq<char>,
    tag: Seq<char>,
    size: u64,
    created: Seq<char>,
    digest: Seq<char>,
) -> ImageView {
    ImageView { id, repository, tag, size, created, digest: Some(digest) }
}

/// The images that the listing reports.
pub open spec fn known_images() -> Seq<ImageView> {
    seq![
        listed_view(
            "sha256:abc123"@,
            "quantum/security"@,
            "latest"@,
            2_300_000_000,
            "2026-02-15T08:00:00Z"@,
            "sha256:abc123def456..."@,
        ),
        listed_view(
            "sha256:def456"@,
            "quantum/security"@,
            "full"@,
            4_100_000_000,
            "2026-02-10T12:00:00Z"@,
            "sha256:def456ghi789..."@,
        ),
        listed_view(
            "sha256:ghi789"@,
            "quantum/security"@,
            "light"@,
            1_200_000_000,
            "2026-02-18T16:00:00Z"@,
            "sha256:ghi789jkl012..."@,
        ),
        listed_view(
            "sha256:jkl012"@,
            "quantum/pentest"@,
            "latest"@,
            3_500_000_000,
            "2026-02-12T10:00:00Z"@,
            "sha256:jkl012mno345..."@,
        ),
    ]
}

/// A freshly made image record: no digest yet.
pub open spec fn fresh_view(
    id: Seq<char>,
    repository: Seq<char>,
    tag: Seq<char>,
    size: u64,
    created: Seq<char>,
) -> ImageView {
    ImageView { id, repository, tag, size, created, digest: None }
}

/// An image identifier: `sha256:` followed by a number in hexadecimal.
pub open spec fn is_hex_image_id(id: Seq<char>) -> bool {
    exists|n: u128| id == "sha256:"@ + lower_hex(n as nat)
}

/// The outcome of making an image record: a fresh record of `repository:tag`
/// with `size`, a random identifier and a timestamp, or the reason none could
/// be made.
pub open spec fn image_made(
    r: Result<Image, String>,
    repository: Seq<char>,
    tag: Seq<char>,
    size: u64,
) -> bool {
    match r {
        Ok(i) => i@ == fresh_view(i@.id, repository, tag, size, i@.created) && is_hex_image_id(i@.id)
            && is_timestamp(i@.created),
        Err(m) => m@ == "Failed to generate an identifier"@ || m@ == "Failed to read the current time"@,
    }
}

/// Image operations.
pub struct ImageManager;

impl ImageManager {
    /// An image record with a digest.
    fn listed(
        id: &str,
        repository: &str,
        tag: &str,
        size: u64,
        created: &str,
        digest: &str,
    ) -> (r: Image)
        ensures
            r@ == listed_view(id@, repository@, tag@, size, created@, digest@),
    {
        Image {
            id: String::from_str(id),
            repository: String::from_str(repository),
            tag: String::from_str(tag),
            size,
            created: String::from_str(created),
            digest: Some(String::from_str(digest)),
        }
    }

    /// Lists the available images.
    pub fn list() -> (r: Vec<Image>)
        ensures
            image_views(r@) == known_images(),
    {
        let mut r: Vec<Image> = Vec::new();
        r.push(
            Self::listed(
                "sha256:abc123",
                "quantum/security",
                "latest",
                2_300_000_000,
                "2026-02-15T08:00:00Z",
                "sha256:abc123def456...",
            ),
        );
        r.push(
            Self::listed(
                "sha256:def456",
                "quantum/security",
                "full",
                4_100_000_000,
                "2026-02-10T12:00:00Z",
                "sha256:def456ghi789...",
            ),
        );
        r.push(
            Self::listed(
                "sha256:ghi789",
                "quantum/security",
                "light",
                1_200_000_000,
                "2026-02-18T16:00:00Z",
                "sha256:ghi789jkl012...",
            ),
        );
        r.push(
            Self::listed(
                "sha256:jkl012",
                "quantum/pentest",
                "latest",
                3_500_000_000,
                "2026-02-12T10:00:00Z",
                "sha256:jkl012mno345...",
            ),
        );
        assert(image_views(r@) =~= known_images());
        r
    }

    /// An image record without a digest, under the identifier `sha256:`
    /// followed by `n` in hexadecimal.
    pub fn fresh_image(n: u128, repository: &str, tag: &str, size: u64, created: String) -> (r:
        Image)
        ensures
            r@ == fresh_view("sha256:"@ + lower_hex(n as nat), repository@, tag@, size, created@),
    {
        let id = String::from_str("sha256:").concat(to_lower_hex(n).as_str());
        Image {
            id,
            repository: String::from_str(repository),
            tag: String::from_str(tag),
            size,
            created,
            digest: None,
        }
    }

    /// A fresh image record under a random identifier, stamped with the
    /// current time; fails when no random number or no clock reading can be had.
    fn stamped_image(repository: &str, tag: &str, size: u64) -> (r: Result<Image, String>)
        ensures
            image_made(r, repository@, tag@, size),
    {
        let n = match random_u128() {
            Some(n) => n,
            None => {
                return Err(String::from_str("Failed to generate an identifier"));
            },
        };
        let created = match now_rfc3339() {
            Some(t) => t,
            None => {
                return Err(String::from_str("Failed to read the current time"));
            },
        };
        Ok(Self::fresh_image(n, repository, tag, size, created))
    }

    /// Pulls `repository:tag` from its registry.
    pub fn pull(repository: &str, tag: &str) -> (r: Result<Image, String>)
        ensures
            image_made(r, repository@, tag@, 2_000_000_000),
    {
        Self::stamped_image(repository, tag, 2_000_000_000)
    }

    /// Removes the image `repository:tag`.
    pub fn remove(repository: &str, tag: &str) -> (r: Result<(), String>)
        ensures
            r is Ok,
    {
        Ok(())
    }

    /// Builds an image from `dockerfile` and tags it `quantum/custom:tag`.
    pub fn build(dockerfile: &str, tag: &str) -> (r: Result<Image, String>)
        ensures
            image_made(r, "quantum/custom"@, tag@, 1_500_000_000),
    {
        Self::stamped_image("quantum/custom", tag, 1_500_000_000)
    }

    /// Describes the image `repository:tag`.
    pub fn info(repository: &str, tag: &str) -> (r: Result<Image, String>)
        ensures
            image_made(r, repository@, tag@, 2_000_000_000),
    {
        Self::stamped_image(repository, tag, 2_000_000_000)
    }
}

} // verus!
