//! The tag policy engine: process-wide, read-only upload policies.
//!
//! A `Tag` is a named policy (size cap, id scheme, content-type
//! restriction, gating fields, enabled flag) under which files are
//! uploaded and served. The table is built once at startup and only read
//! afterwards; `get_tag` is the admission check run before any I/O on
//! every upload, serve and download request.

use vstd::prelude::*;

use crate::result::Error;

verus! {

/// The media classes a tag may restrict its uploads to.
#[derive(Clone, Copy, Debug, PartialEq, Eq, Structural)]
pub enum ContentType {
    Image,
    Video,
    Audio,
}

/// Tags are enabled unless the configuration says otherwise.
pub fn default_as_true() -> (b: bool)
    ensures
        b,
{
    true
}

/// One named upload policy.
#[derive(Clone, Debug)]
pub struct Tag {
    /// Hard byte ceiling for uploads under this tag.
    pub max_size: usize,
    /// Id scheme: sortable unique ids when set, short random ids otherwise.
    pub use_ulid: bool,
    /// A disabled tag behaves exactly like an unknown one.
    pub enabled: bool,
    /// If non-empty, a record is only servable under this tag when at
    /// least one of these fields is present on it.
    pub serve_if_field_present: Vec<String>,
    /// If set, only uploads of the matching media class are accepted.
    pub restrict_content_type: Option<ContentType>,
}

/// The raster format stored images are re-encoded to when served resized.
/// The quality factor is a whole-number percentage; absent means lossless.
#[derive(Clone, Copy, Debug)]
pub enum ServeConfig {
    WEBP { quality: Option<u8> },
    PNG,
}

/// The whole service configuration, loaded once at startup.
pub struct Config {
    /// The tag table, keyed by tag name; names are unique.
    pub tags: Vec<(String, Tag)>,
    /// Output format for resized serves.
    pub serve: ServeConfig,
    /// Quality used when re-encoding uploaded JPEGs.
    pub jpeg_quality: u8,
}

impl Config {
    /// Tag names are unique, so a name picks out at most one policy.
    pub open spec fn wf(self) -> bool {
        forall|i: int, j: int|
            0 <= i < j < self.tags@.len() ==> self.tags@[i].0@ != self.tags@[j].0@
    }

    /// Whether some tag in the table has this name.
    pub open spec fn has_tag(self, name: Seq<char>) -> bool {
        exists|i: int| 0 <= i < self.tags@.len() && self.tags@[i].0@ == name
    }

    /// The policy stored under this name.
    pub open spec fn tag_for(self, name: Seq<char>) -> Tag {
        self.tags@[choose|i: int| 0 <= i < self.tags@.len() && self.tags@[i].0@ == name].1
    }
}

/// With unique names, the entry found at an index is the entry `tag_for`
/// speaks of.
proof fn lemma_tag_at(config: Config, name: Seq<char>, i: int)
    requires
        config.wf(),
        0 <= i < config.tags@.len(),
        config.tags@[i].0@ == name,
    ensures
        config.has_tag(name),
        config.tag_for(name) == config.tags@[i].1,
{
    assert(config.has_tag(name));
    let j = choose|k: int| 0 <= k < config.tags@.len() && config.tags@[k].0@ == name;
    if j < i {
        assert(config.tags@[j].0@ != config.tags@[i].0@);
    } else if i < j {
        assert(config.tags@[i].0@ != config.tags@[j].0@);
    }
}

/// Resolves a tag name to its policy.
///
/// Fails with `UnknownTag` when the name is absent from the table or the
/// tag is disabled; both cases are indistinguishable to the client.
pub fn get_tag<'a>(config: &'a Config, name: &String) -> (r: Result<(String, &'a Tag), Error>)
    requires
        config.wf(),
    ensures
        r is Ok <==> config.has_tag(name@) && config.tag_for(name@).enabled,
        r matches Ok((n, t)) ==> n@ == name@ && *t == config.tag_for(name@),
        r matches Err(e) ==> e == Error::UnknownTag,
{
    let n = config.tags.len();
    let mut i: usize = 0;
    while i < n
        invariant
            config.wf(),
            n == config.tags@.len(),
            0 <= i <= n,
            forall|k: int| 0 <= k < i ==> config.tags@[k].0@ != name@,
        decreases n - i,
    {
        let entry = &config.tags[i];
        if entry.0 == *name {
            proof {
                lemma_tag_at(*config, name@, i as int);
            }
            if entry.1.enabled {
                return Ok((name.clone(), &entry.1));
            } else {
                return Err(Error::UnknownTag);
            }
        }
        i += 1;
    }
    Err(Error::UnknownTag)
}

} // verus!
