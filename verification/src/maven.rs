//! The repository metadata model: typed views of the two remote
//! repository document shapes.
//!
//! Both decoders are pure transforms from an in-memory document string
//! (already fetched by a caller; no retrieval happens here) to a typed
//! value or a [`DecodeError`]:
//!
//! - [`MavenMetadata::decode`] reads a per-artifact metadata document
//!   (root `metadata` with `groupId`, `artifactId` and a `versioning`
//!   record).
//! - [`MavenPom::decode`] reads a per-version descriptor (root
//!   `project` with a `dependencies` list).
//!
//! Internal snake-case field names correspond to camelCase tag names in
//! the documents (`group_id` ↔ `groupId`, `artifact_id` ↔ `artifactId`,
//! `last_updated` ↔ `lastUpdated`); each decoder states that mapping
//! explicitly where it matches a tag name. Unknown elements are
//! skipped; a required element that is absent, or one that appears
//! twice where a single value is expected, is a decode error — no
//! default or partial value is ever returned. Element order inside a
//! parent does not matter, except that repeated `version` and
//! `dependency` entries keep their document order.

use vstd::prelude::*;

use crate::decode::{DecodeError, DecodeErrorModel};
use crate::text::str_eq;
use crate::xml::{
    read_close, read_leaf_rest, read_open, skip_content, skip_prolog, skip_ws, spec_read_close,
    spec_read_leaf_rest, spec_read_open, spec_skip_content, spec_skip_prolog, spec_skip_ws,
};

verus! {

/// Mathematical image of a [`Versioning`] record.
pub struct VersioningModel {
    pub latest: Seq<char>,
    pub release: Seq<char>,
    pub versions: Seq<Seq<char>>,
    pub last_updated: Seq<char>,
}

/// Mathematical image of a [`MavenMetadata`] document.
pub struct MavenMetadataModel {
    pub group_id: Seq<char>,
    pub artifact_id: Seq<char>,
    pub versioning: VersioningModel,
}

/// Mathematical image of a POM [`Dependency`] entry.
pub struct DependencyModel {
    pub group_id: Seq<char>,
    pub artifact_id: Seq<char>,
    pub version: Seq<char>,
    pub scope: Option<Seq<char>>,
}

/// Mathematical image of a [`MavenPom`] document.
pub struct MavenPomModel {
    pub dependencies: Seq<DependencyModel>,
}

/// One artifact across all its published versions, as a repository
/// metadata document describes it.
#[derive(Debug, PartialEq, Eq)]
pub struct MavenMetadata {
    pub group_id: String,
    pub artifact_id: String,
    pub versioning: Versioning,
}

/// The version bookkeeping of one artifact: the most recently published
/// version (`latest`, any stability), the most recent stable version
/// (`release`), every known version in publication order, and an opaque
/// `last_updated` timestamp (its format is the source repository's
/// convention; it is not validated here).
#[derive(Debug, PartialEq, Eq)]
pub struct Versioning {
    pub latest: String,
    pub release: String,
    pub versions: Versions,
    pub last_updated: String,
}

/// A thin wrapper holding the repeated `version` child elements as a
/// sequence of strings, oldest to newest as published.
#[derive(Debug, PartialEq, Eq)]
pub struct Versions {
    pub version: Vec<String>,
}

/// One specific version's declared dependencies, as its POM document
/// lists them. Document order is preserved; no further meaning is
/// attached to the order here.
#[derive(Debug, PartialEq, Eq)]
pub struct MavenPom {
    pub dependencies: Dependencies,
}

/// A thin wrapper holding the repeated `dependency` child elements.
#[derive(Debug, PartialEq, Eq)]
pub struct Dependencies {
    pub dependency: Vec<Dependency>,
}

/// One declared dependency: a coordinate plus an optional scope
/// qualifier. An absent scope means the default ("compile") scope; its
/// semantics are the resolution engine's concern.
#[derive(Debug, PartialEq, Eq)]
pub struct Dependency {
    pub group_id: String,
    pub artifact_id: String,
    pub version: String,
    pub scope: Option<String>,
}

impl View for Versions {
    type V = Seq<Seq<char>>;

    open spec fn view(&self) -> Seq<Seq<char>> {
        self.version.deep_view()
    }
}

impl View for Versioning {
    type V = VersioningModel;

    open spec fn view(&self) -> VersioningModel {
        VersioningModel {
            latest: self.latest@,
            release: self.release@,
            versions: self.versions@,
            last_updated: self.last_updated@,
        }
    }
}

impl View for MavenMetadata {
    type V = MavenMetadataModel;

    open spec fn view(&self) -> MavenMetadataModel {
        MavenMetadataModel {
            group_id: self.group_id@,
            artifact_id: self.artifact_id@,
            versioning: self.versioning@,
        }
    }
}

impl View for Dependency {
    type V = DependencyModel;

    open spec fn view(&self) -> DependencyModel {
        DependencyModel {
            group_id: self.group_id@,
            artifact_id: self.artifact_id@,
            version: self.version@,
            scope: self.scope.deep_view(),
        }
    }
}

impl DeepView for Dependency {
    type V = DependencyModel;

    open spec fn deep_view(&self) -> DependencyModel {
        self.view()
    }
}

impl View for Dependencies {
    type V = Seq<DependencyModel>;

    open spec fn view(&self) -> Seq<DependencyModel> {
        self.dependency.deep_view()
    }
}

impl View for MavenPom {
    type V = MavenPomModel;

    open spec fn view(&self) -> MavenPomModel {
        MavenPomModel { dependencies: self.dependencies@ }
    }
}

/// The error reported wherever the document text itself is malformed.
pub open spec fn err_syntax() -> DecodeErrorModel {
    DecodeErrorModel::Syntax { message: "malformed document"@ }
}

/// Fields of a `versioning` element, accumulated in document order
/// until its closing tag. A field seen twice is a duplicate; at the
/// closing tag every required field must have been seen.
pub open spec fn spec_versioning_fields(
    s: Seq<char>,
    i: int,
    lat: Option<Seq<char>>,
    rel: Option<Seq<char>>,
    vers: Option<Seq<Seq<char>>>,
    lu: Option<Seq<char>>,
) -> Result<(VersioningModel, int), DecodeErrorModel>
    decreases s.len() - i,
{
    let w = spec_skip_ws(s, i);
    if !(i <= w < s.len()) {
        Err(err_syntax())
    } else if s[w] == '<' && w + 1 < s.len() && s[w + 1] == '/' {
        match spec_read_close(s, w) {
            Some((nm, j)) => if nm == "versioning"@ {
                match (lat, rel, vers, lu) {
                    (Some(l), Some(r), Some(vs), Some(u)) => Ok(
                        (
                            VersioningModel {
                                latest: l,
                                release: r,
                                versions: vs,
                                last_updated: u,
                            },
                            j,
                        ),
                    ),
                    (None, _, _, _) => Err(DecodeErrorModel::MissingKey { key: "latest"@ }),
                    (_, None, _, _) => Err(DecodeErrorModel::MissingKey { key: "release"@ }),
                    (_, _, None, _) => Err(DecodeErrorModel::MissingKey { key: "versions"@ }),
                    (_, _, _, None) => Err(DecodeErrorModel::MissingKey { key: "lastUpdated"@ }),
                }
            } else {
                Err(err_syntax())
            },
            None => Err(err_syntax()),
        }
    } else if s[w] == '<' {
        match spec_read_open(s, w) {
            Some((nm, j, sc)) => if nm == "latest"@ {
                if lat is Some {
                    Err(DecodeErrorModel::DuplicateKey { key: "latest"@ })
                } else if sc {
                    if w < j <= s.len() {
                        spec_versioning_fields(s, j, Some(Seq::empty()), rel, vers, lu)
                    } else {
                        Err(err_syntax())
                    }
                } else {
                    match spec_read_leaf_rest(s, j, nm) {
                        Some((txt, k)) => if w < k <= s.len() {
                            spec_versioning_fields(s, k, Some(txt), rel, vers, lu)
                        } else {
                            Err(err_syntax())
                        },
                        None => Err(err_syntax()),
                    }
                }
            } else if nm == "release"@ {
                if rel is Some {
                    Err(DecodeErrorModel::DuplicateKey { key: "release"@ })
                } else if sc {
                    if w < j <= s.len() {
                        spec_versioning_fields(s, j, lat, Some(Seq::empty()), vers, lu)
                    } else {
                        Err(err_syntax())
                    }
                } else {
                    match spec_read_leaf_rest(s, j, nm) {
                        Some((txt, k)) => if w < k <= s.len() {
                            spec_versioning_fields(s, k, lat, Some(txt), vers, lu)
                        } else {
                            Err(err_syntax())
                        },
                        None => Err(err_syntax()),
                    }
                }
            } else if nm == "lastUpdated"@ {
                if lu is Some {
                    Err(DecodeErrorModel::DuplicateKey { key: "lastUpdated"@ })
                } else if sc {
                    if w < j <= s.len() {
                        spec_versioning_fields(s, j, lat, rel, vers, Some(Seq::empty()))
                    } else {
                        Err(err_syntax())
                    }
                } else {
                    match spec_read_leaf_rest(s, j, nm) {
                        Some((txt, k)) => if w < k <= s.len() {
                            spec_versioning_fields(s, k, lat, rel, vers, Some(txt))
                        } else {
                            Err(err_syntax())
                        },
                        None => Err(err_syntax()),
                    }
                }
            } else if nm == "versions"@ {
                if vers is Some {
                    Err(DecodeErrorModel::DuplicateKey { key: "versions"@ })
                } else if sc {
                    if w < j <= s.len() {
                        spec_versioning_fields(s, j, lat, rel, Some(Seq::empty()), lu)
                    } else {
                        Err(err_syntax())
                    }
                } else {
                    match spec_version_list(s, j, Seq::empty()) {
                        Ok((vs, k)) => if w < k <= s.len() {
                            spec_versioning_fields(s, k, lat, rel, Some(vs), lu)
                        } else {
                            Err(err_syntax())
                        },
                        Err(e) => Err(e),
                    }
                }
            } else {
                if sc {
                    if w < j <= s.len() {
                        spec_versioning_fields(s, j, lat, rel, vers, lu)
                    } else {
                        Err(err_syntax())
                    }
                } else {
                    match spec_skip_content(s, j) {
                        Some(k) => if w < k <= s.len() {
                            spec_versioning_fields(s, k, lat, rel, vers, lu)
                        } else {
                            Err(err_syntax())
                        },
                        None => Err(err_syntax()),
                    }
                }
            },
            None => Err(err_syntax()),
        }
    } else {
        Err(err_syntax())
    }
}

/// The repeated `version` children of a `versions` element, in document
/// order, until its closing tag. Unknown children are skipped.
pub open spec fn spec_version_list(s: Seq<char>, i: int, acc: Seq<Seq<char>>) -> Result<
    (Seq<Seq<char>>, int),
    DecodeErrorModel,
>
    decreases s.len() - i,
{
    let w = spec_skip_ws(s, i);
    if !(i <= w < s.len()) {
        Err(err_syntax())
    } else if s[w] == '<' && w + 1 < s.len() && s[w + 1] == '/' {
        match spec_read_close(s, w) {
            Some((nm, j)) => if nm == "versions"@ {
                Ok((acc, j))
            } else {
                Err(err_syntax())
            },
            None => Err(err_syntax()),
        }
    } else if s[w] == '<' {
        match spec_read_open(s, w) {
            Some((nm, j, sc)) => if nm == "version"@ {
                if sc {
                    if w < j <= s.len() {
                        spec_version_list(s, j, acc.push(Seq::empty()))
                    } else {
                        Err(err_syntax())
                    }
                } else {
                    match spec_read_leaf_rest(s, j, nm) {
                        Some((txt, k)) => if w < k <= s.len() {
                            spec_version_list(s, k, acc.push(txt))
                        } else {
                            Err(err_syntax())
                        },
                        None => Err(err_syntax()),
                    }
                }
            } else {
                if sc {
                    if w < j <= s.len() {
                        spec_version_list(s, j, acc)
                    } else {
                        Err(err_syntax())
                    }
                } else {
                    match spec_skip_content(s, j) {
                        Some(k) => if w < k <= s.len() {
                            spec_version_list(s, k, acc)
                        } else {
                            Err(err_syntax())
                        },
                        None => Err(err_syntax()),
                    }
                }
            },
            None => Err(err_syntax()),
        }
    } else {
        Err(err_syntax())
    }
}

/// Fields of a `metadata` element, accumulated until its closing tag.
pub open spec fn spec_meta_fields(
    s: Seq<char>,
    i: int,
    g: Option<Seq<char>>,
    a: Option<Seq<char>>,
    v: Option<VersioningModel>,
) -> Result<(MavenMetadataModel, int), DecodeErrorModel>
    decreases s.len() - i,
{
    let w = spec_skip_ws(s, i);
    if !(i <= w < s.len()) {
        Err(err_syntax())
    } else if s[w] == '<' && w + 1 < s.len() && s[w + 1] == '/' {
        match spec_read_close(s, w) {
            Some((nm, j)) => if nm == "metadata"@ {
                match (g, a, v) {
                    (Some(gv), Some(av), Some(vv)) => Ok(
                        (
                            MavenMetadataModel {
                                group_id: gv,
                                artifact_id: av,
                                versioning: vv,
                            },
                            j,
                        ),
                    ),
                    (None, _, _) => Err(DecodeErrorModel::MissingKey { key: "groupId"@ }),
                    (_, None, _) => Err(DecodeErrorModel::MissingKey { key: "artifactId"@ }),
                    (_, _, None) => Err(DecodeErrorModel::MissingKey { key: "versioning"@ }),
                }
            } else {
                Err(err_syntax())
            },
            None => Err(err_syntax()),
        }
    } else if s[w] == '<' {
        match spec_read_open(s, w) {
            Some((nm, j, sc)) => if nm == "groupId"@ {
                if g is Some {
                    Err(DecodeErrorModel::DuplicateKey { key: "groupId"@ })
                } else if sc {
                    if w < j <= s.len() {
                        spec_meta_fields(s, j, Some(Seq::empty()), a, v)
                    } else {
                        Err(err_syntax())
                    }
                } else {
                    match spec_read_leaf_rest(s, j, nm) {
                        Some((txt, k)) => if w < k <= s.len() {
                            spec_meta_fields(s, k, Some(txt), a, v)
                        } else {
                            Err(err_syntax())
                        },
                        None => Err(err_syntax()),
                    }
                }
            } else if nm == "artifactId"@ {
                if a is Some {
                    Err(DecodeErrorModel::DuplicateKey { key: "artifactId"@ })
                } else if sc {
                    if w < j <= s.len() {
                        spec_meta_fields(s, j, g, Some(Seq::empty()), v)
                    } else {
                        Err(err_syntax())
                    }
                } else {
                    match spec_read_leaf_rest(s, j, nm) {
                        Some((txt, k)) => if w < k <= s.len() {
                            spec_meta_fields(s, k, g, Some(txt), v)
                        } else {
                            Err(err_syntax())
                        },
                        None => Err(err_syntax()),
                    }
                }
            } else if nm == "versioning"@ {
                if v is Some {
                    Err(DecodeErrorModel::DuplicateKey { key: "versioning"@ })
                } else if sc {
                    Err(DecodeErrorModel::MissingKey { key: "latest"@ })
                } else {
                    match spec_versioning_fields(s, j, None, None, None, None) {
                        Ok((vv, k)) => if w < k <= s.len() {
                            spec_meta_fields(s, k, g, a, Some(vv))
                        } else {
                            Err(err_syntax())
                        },
                        Err(e) => Err(e),
                    }
                }
            } else {
                if sc {
                    if w < j <= s.len() {
                        spec_meta_fields(s, j, g, a, v)
                    } else {
                        Err(err_syntax())
                    }
                } else {
                    match spec_skip_content(s, j) {
                        Some(k) => if w < k <= s.len() {
                            spec_meta_fields(s, k, g, a, v)
                        } else {
                            Err(err_syntax())
                        },
                        None => Err(err_syntax()),
                    }
                }
            },
            None => Err(err_syntax()),
        }
    } else {
        Err(err_syntax())
    }
}

/// What decoding a metadata document yields: the typed value for a
/// well-formed document, the precise error otherwise.
pub open spec fn spec_decode_metadata(s: Seq<char>) -> Result<
    MavenMetadataModel,
    DecodeErrorModel,
> {
    match spec_skip_prolog(s, 0) {
        Some(i) => match spec_read_open(s, i) {
            Some((nm, j, sc)) => if nm != "metadata"@ {
                Err(err_syntax())
            } else if sc {
                Err(DecodeErrorModel::MissingKey { key: "groupId"@ })
            } else {
                match spec_meta_fields(s, j, None, None, None) {
                    Ok((m, k)) => if spec_skip_ws(s, k) == s.len() {
                        Ok(m)
                    } else {
                        Err(err_syntax())
                    },
                    Err(e) => Err(e),
                }
            },
            None => Err(err_syntax()),
        },
        None => Err(err_syntax()),
    }
}

/// Fields of one `dependency` element, accumulated until its closing
/// tag. `groupId`, `artifactId` and `version` are required; `scope` is
/// optional and absent by default.
pub open spec fn spec_dep_fields(
    s: Seq<char>,
    i: int,
    g: Option<Seq<char>>,
    a: Option<Seq<char>>,
    ver: Option<Seq<char>>,
    sco: Option<Seq<char>>,
) -> Result<(DependencyModel, int), DecodeErrorModel>
    decreases s.len() - i,
{
    let w = spec_skip_ws(s, i);
    if !(i <= w < s.len()) {
        Err(err_syntax())
    } else if s[w] == '<' && w + 1 < s.len() && s[w + 1] == '/' {
        match spec_read_close(s, w) {
            Some((nm, j)) => if nm == "dependency"@ {
                match (g, a, ver) {
                    (Some(gv), Some(av), Some(vv)) => Ok(
                        (
                            DependencyModel {
                                group_id: gv,
                                artifact_id: av,
                                version: vv,
                                scope: sco,
                            },
                            j,
                        ),
                    ),
                    (None, _, _) => Err(DecodeErrorModel::MissingKey { key: "groupId"@ }),
                    (_, None, _) => Err(DecodeErrorModel::MissingKey { key: "artifactId"@ }),
                    (_, _, None) => Err(DecodeErrorModel::MissingKey { key: "version"@ }),
                }
            } else {
                Err(err_syntax())
            },
            None => Err(err_syntax()),
        }
    } else if s[w] == '<' {
        match spec_read_open(s, w) {
            Some((nm, j, sc)) => if nm == "groupId"@ {
                if g is Some {
                    Err(DecodeErrorModel::DuplicateKey { key: "groupId"@ })
                } else if sc {
                    if w < j <= s.len() {
                        spec_dep_fields(s, j, Some(Seq::empty()), a, ver, sco)
                    } else {
                        Err(err_syntax())
                    }
                } else {
                    match spec_read_leaf_rest(s, j, nm) {
                        Some((txt, k)) => if w < k <= s.len() {
                            spec_dep_fields(s, k, Some(txt), a, ver, sco)
                        } else {
                            Err(err_syntax())
                        },
                        None => Err(err_syntax()),
                    }
                }
            } else if nm == "artifactId"@ {
                if a is Some {
                    Err(DecodeErrorModel::DuplicateKey { key: "artifactId"@ })
                } else if sc {
                    if w < j <= s.len() {
                        spec_dep_fields(s, j, g, Some(Seq::empty()), ver, sco)
                    } else {
                        Err(err_syntax())
                    }
                } else {
                    match spec_read_leaf_rest(s, j, nm) {
                        Some((txt, k)) => if w < k <= s.len() {
                            spec_dep_fields(s, k, g, Some(txt), ver, sco)
                        } else {
                            Err(err_syntax())
                        },
                        None => Err(err_syntax()),
                    }
                }
            } else if nm == "version"@ {
                if ver is Some {
                    Err(DecodeErrorModel::DuplicateKey { key: "version"@ })
                } else if sc {
                    if w < j <= s.len() {
                        spec_dep_fields(s, j, g, a, Some(Seq::empty()), sco)
                    } else {
                        Err(err_syntax())
                    }
                } else {
                    match spec_read_leaf_rest(s, j, nm) {
                        Some((txt, k)) => if w < k <= s.len() {
                            spec_dep_fields(s, k, g, a, Some(txt), sco)
                        } else {
                            Err(err_syntax())
                        },
                        None => Err(err_syntax()),
                    }
                }
            } else if nm == "scope"@ {
                if sco is Some {
                    Err(DecodeErrorModel::DuplicateKey { key: "scope"@ })
                } else if sc {
                    if w < j <= s.len() {
                        spec_dep_fields(s, j, g, a, ver, Some(Seq::empty()))
                    } else {
                        Err(err_syntax())
                    }
                } else {
                    match spec_read_leaf_rest(s, j, nm) {
                        Some((txt, k)) => if w < k <= s.len() {
                            spec_dep_fields(s, k, g, a, ver, Some(txt))
                        } else {
                            Err(err_syntax())
                        },
                        None => Err(err_syntax()),
                    }
                }
            } else {
                if sc {
                    if w < j <= s.len() {
                        spec_dep_fields(s, j, g, a, ver, sco)
                    } else {
                        Err(err_syntax())
                    }
                } else {
                    match spec_skip_content(s, j) {
                        Some(k) => if w < k <= s.len() {
                            spec_dep_fields(s, k, g, a, ver, sco)
                        } else {
                            Err(err_syntax())
                        },
                        None => Err(err_syntax()),
                    }
                }
            },
            None => Err(err_syntax()),
        }
    } else {
        Err(err_syntax())
    }
}

/// The repeated `dependency` children of a `dependencies` element, in
/// document order, until its closing tag. Unknown children are skipped.
pub open spec fn spec_dep_list(s: Seq<char>, i: int, acc: Seq<DependencyModel>) -> Result<
    (Seq<DependencyModel>, int),
    DecodeErrorModel,
>
    decreases s.len() - i,
{
    let w = spec_skip_ws(s, i);
    if !(i <= w < s.len()) {
        Err(err_syntax())
    } else if s[w] == '<' && w + 1 < s.len() && s[w + 1] == '/' {
        match spec_read_close(s, w) {
            Some((nm, j)) => if nm == "dependencies"@ {
                Ok((acc, j))
            } else {
                Err(err_syntax())
            },
            None => Err(err_syntax()),
        }
    } else if s[w] == '<' {
        match spec_read_open(s, w) {
            Some((nm, j, sc)) => if nm == "dependency"@ {
                if sc {
                    Err(DecodeErrorModel::MissingKey { key: "groupId"@ })
                } else {
                    match spec_dep_fields(s, j, None, None, None, None) {
                        Ok((d, k)) => if w < k <= s.len() {
                            spec_dep_list(s, k, acc.push(d))
                        } else {
                            Err(err_syntax())
                        },
                        Err(e) => Err(e),
                    }
                }
            } else {
                if sc {
                    if w < j <= s.len() {
                        spec_dep_list(s, j, acc)
                    } else {
                        Err(err_syntax())
                    }
                } else {
                    match spec_skip_content(s, j) {
                        Some(k) => if w < k <= s.len() {
                            spec_dep_list(s, k, acc)
                        } else {
                            Err(err_syntax())
                        },
                        None => Err(err_syntax()),
                    }
                }
            },
            None => Err(err_syntax()),
        }
    } else {
        Err(err_syntax())
    }
}

/// Fields of a `project` element, accumulated until its closing tag.
/// Only `dependencies` is read; everything else is skipped.
pub open spec fn spec_pom_fields(s: Seq<char>, i: int, deps: Option<Seq<DependencyModel>>) -> Result<
    (MavenPomModel, int),
    DecodeErrorModel,
>
    decreases s.len() - i,
{
    let w = spec_skip_ws(s, i);
    if !(i <= w < s.len()) {
        Err(err_syntax())
    } else if s[w] == '<' && w + 1 < s.len() && s[w + 1] == '/' {
        match spec_read_close(s, w) {
            Some((nm, j)) => if nm == "project"@ {
                match deps {
                    Some(ds) => Ok((MavenPomModel { dependencies: ds }, j)),
                    None => Err(DecodeErrorModel::MissingKey { key: "dependencies"@ }),
                }
            } else {
                Err(err_syntax())
            },
            None => Err(err_syntax()),
        }
    } else if s[w] == '<' {
        match spec_read_open(s, w) {
            Some((nm, j, sc)) => if nm == "dependencies"@ {
                if deps is Some {
                    Err(DecodeErrorModel::DuplicateKey { key: "dependencies"@ })
                } else if sc {
                    if w < j <= s.len() {
                        spec_pom_fields(s, j, Some(Seq::empty()))
                    } else {
                        Err(err_syntax())
                    }
                } else {
                    match spec_dep_list(s, j, Seq::empty()) {
                        Ok((ds, k)) => if w < k <= s.len() {
                            spec_pom_fields(s, k, Some(ds))
                        } else {
                            Err(err_syntax())
                        },
                        Err(e) => Err(e),
                    }
                }
            } else {
                if sc {
                    if w < j <= s.len() {
                        spec_pom_fields(s, j, deps)
                    } else {
                        Err(err_syntax())
                    }
                } else {
                    match spec_skip_content(s, j) {
                        Some(k) => if w < k <= s.len() {
                            spec_pom_fields(s, k, deps)
                        } else {
                            Err(err_syntax())
                        },
                        None => Err(err_syntax()),
                    }
                }
            },
            None => Err(err_syntax()),
        }
    } else {
        Err(err_syntax())
    }
}

/// What decoding a POM document yields: the dependency list in document
/// order for a well-formed document, the precise error otherwise.
pub open spec fn spec_decode_pom(s: Seq<char>) -> Result<MavenPomModel, DecodeErrorModel> {
    match spec_skip_prolog(s, 0) {
        Some(i) => match spec_read_open(s, i) {
            Some((nm, j, sc)) => if nm != "project"@ {
                Err(err_syntax())
            } else if sc {
                Err(DecodeErrorModel::MissingKey { key: "dependencies"@ })
            } else {
                match spec_pom_fields(s, j, None) {
                    Ok((p, k)) => if spec_skip_ws(s, k) == s.len() {
                        Ok(p)
                    } else {
                        Err(err_syntax())
                    },
                    Err(e) => Err(e),
                }
            },
            None => Err(err_syntax()),
        },
        None => Err(err_syntax()),
    }
}

/// Spec view of a field-accumulation result over `Versioning`.
pub open spec fn vf_view(r: Result<(Versioning, usize), DecodeError>) -> Result<
    (VersioningModel, int),
    DecodeErrorModel,
> {
    match r {
        Ok((v, k)) => Ok((v@, k as int)),
        Err(e) => Err(e@),
    }
}

/// Spec view of a version-list result.
pub open spec fn vl_view(r: Result<(Vec<String>, usize), DecodeError>) -> Result<
    (Seq<Seq<char>>, int),
    DecodeErrorModel,
> {
    match r {
        Ok((vs, k)) => Ok((vs.deep_view(), k as int)),
        Err(e) => Err(e@),
    }
}

/// Spec view of a field-accumulation result over `MavenMetadata`.
pub open spec fn mf_view(r: Result<(MavenMetadata, usize), DecodeError>) -> Result<
    (MavenMetadataModel, int),
    DecodeErrorModel,
> {
    match r {
        Ok((m, k)) => Ok((m@, k as int)),
        Err(e) => Err(e@),
    }
}

/// Spec view of a metadata decode result.
pub open spec fn meta_res_view(r: Result<MavenMetadata, DecodeError>) -> Result<
    MavenMetadataModel,
    DecodeErrorModel,
> {
    match r {
        Ok(m) => Ok(m@),
        Err(e) => Err(e@),
    }
}

/// Spec view of a field-accumulation result over one `Dependency`.
pub open spec fn df_view(r: Result<(Dependency, usize), DecodeError>) -> Result<
    (DependencyModel, int),
    DecodeErrorModel,
> {
    match r {
        Ok((d, k)) => Ok((d@, k as int)),
        Err(e) => Err(e@),
    }
}

/// Spec view of a dependency-list result.
pub open spec fn dl_view(r: Result<(Vec<Dependency>, usize), DecodeError>) -> Result<
    (Seq<DependencyModel>, int),
    DecodeErrorModel,
> {
    match r {
        Ok((ds, k)) => Ok((ds.deep_view(), k as int)),
        Err(e) => Err(e@),
    }
}

/// Spec view of a field-accumulation result over `MavenPom`.
pub open spec fn pf_view(r: Result<(MavenPom, usize), DecodeError>) -> Result<
    (MavenPomModel, int),
    DecodeErrorModel,
> {
    match r {
        Ok((p, k)) => Ok((p@, k as int)),
        Err(e) => Err(e@),
    }
}

/// Spec view of a POM decode result.
pub open spec fn pom_res_view(r: Result<MavenPom, DecodeError>) -> Result<
    MavenPomModel,
    DecodeErrorModel,
> {
    match r {
        Ok(p) => Ok(p@),
        Err(e) => Err(e@),
    }
}

/// Spec view of an optional accumulated string field.
pub open spec fn opt_str_view(o: Option<String>) -> Option<Seq<char>> {
    match o {
        Some(x) => Some(x@),
        None => None,
    }
}

/// Spec view of an optional accumulated `Versioning` field.
pub open spec fn opt_vsg_view(o: Option<Versioning>) -> Option<VersioningModel> {
    match o {
        Some(x) => Some(x@),
        None => None,
    }
}

fn version_list(s: &str, i: usize, acc: Vec<String>) -> (r: Result<(Vec<String>, usize), DecodeError>)
    requires
        i <= s@.len(),
    ensures
        vl_view(r) == spec_version_list(s@, i as int, acc.deep_view()),
        r matches Ok(p) ==> i < p.1 <= s@.len(),
    decreases s@.len() - i,
{
    let n = s.unicode_len();
    let w = skip_ws(s, i);
    if !(w < n) {
        return Err(DecodeError::syntax("malformed document"));
    }
    if s.get_char(w) == '<' && w + 1 < n && s.get_char(w + 1) == '/' {
        match read_close(s, w) {
            Some((nm, j)) => {
                if str_eq(nm.as_str(), "versions") {
                    Ok((acc, j))
                } else {
                    Err(DecodeError::syntax("malformed document"))
                }
            },
            None => Err(DecodeError::syntax("malformed document")),
        }
    } else if s.get_char(w) == '<' {
        match read_open(s, w) {
            Some((nm, j, sc)) => {
                if str_eq(nm.as_str(), "version") {
                    if sc {
                        let mut acc2 = acc;
                        acc2.push(String::new());
                        proof {
                            assert(acc2.deep_view() =~= acc.deep_view().push(Seq::<char>::empty()));
                        }
                        version_list(s, j, acc2)
                    } else {
                        match read_leaf_rest(s, j, nm.as_str()) {
                            Some((txt, k)) => {
                                let mut acc2 = acc;
                                acc2.push(txt.clone());
                                proof {
                                    assert(acc2.deep_view() =~= acc.deep_view().push(txt@));
                                }
                                version_list(s, k, acc2)
                            },
                            None => Err(DecodeError::syntax("malformed document")),
                        }
                    }
                } else {
                    if sc {
                        version_list(s, j, acc)
                    } else {
                        match skip_content(s, j) {
                            Some(k) => version_list(s, k, acc),
                            None => Err(DecodeError::syntax("malformed document")),
                        }
                    }
                }
            },
            None => Err(DecodeError::syntax("malformed document")),
        }
    } else {
        Err(DecodeError::syntax("malformed document"))
    }
}

fn versioning_fields(
    s: &str,
    i: usize,
    lat: Option<String>,
    rel: Option<String>,
    vers: Option<Vec<String>>,
    lu: Option<String>,
) -> (r: Result<(Versioning, usize), DecodeError>)
    requires
        i <= s@.len(),
    ensures
        vf_view(r) == spec_versioning_fields(
            s@,
            i as int,
            opt_str_view(lat),
            opt_str_view(rel),
            match vers {
                Some(vs) => Some(vs.deep_view()),
                None => None,
            },
            opt_str_view(lu),
        ),
        r matches Ok(p) ==> i < p.1 <= s@.len(),
    decreases s@.len() - i,
{
    let n = s.unicode_len();
    let w = skip_ws(s, i);
    if !(w < n) {
        return Err(DecodeError::syntax("malformed document"));
    }
    if s.get_char(w) == '<' && w + 1 < n && s.get_char(w + 1) == '/' {
        match read_close(s, w) {
            Some((nm, j)) => {
                if str_eq(nm.as_str(), "versioning") {
                    match (lat, rel, vers, lu) {
                        (Some(l), Some(r0), Some(vs), Some(u)) => Ok(
                            (
                                Versioning {
                                    latest: l,
                                    release: r0,
                                    versions: Versions { version: vs },
                                    last_updated: u,
                                },
                                j,
                            ),
                        ),
                        (None, _, _, _) => Err(DecodeError::missing("latest")),
                        (_, None, _, _) => Err(DecodeError::missing("release")),
                        (_, _, None, _) => Err(DecodeError::missing("versions")),
                        (_, _, _, None) => Err(DecodeError::missing("lastUpdated")),
                    }
                } else {
                    Err(DecodeError::syntax("malformed document"))
                }
            },
            None => Err(DecodeError::syntax("malformed document")),
        }
    } else if s.get_char(w) == '<' {
        match read_open(s, w) {
            Some((nm, j, sc)) => {
                if str_eq(nm.as_str(), "latest") {
                    if lat.is_some() {
                        Err(DecodeError::duplicate("latest"))
                    } else if sc {
                        versioning_fields(s, j, Some(String::new()), rel, vers, lu)
                    } else {
                        match read_leaf_rest(s, j, nm.as_str()) {
                            Some((txt, k)) => versioning_fields(s, k, Some(txt), rel, vers, lu),
                            None => Err(DecodeError::syntax("malformed document")),
                        }
                    }
                } else if str_eq(nm.as_str(), "release") {
                    if rel.is_some() {
                        Err(DecodeError::duplicate("release"))
                    } else if sc {
                        versioning_fields(s, j, lat, Some(String::new()), vers, lu)
                    } else {
                        match read_leaf_rest(s, j, nm.as_str()) {
                            Some((txt, k)) => versioning_fields(s, k, lat, Some(txt), vers, lu),
                            None => Err(DecodeError::syntax("malformed document")),
                        }
                    }
                } else if str_eq(nm.as_str(), "lastUpdated") {
                    if lu.is_some() {
                        Err(DecodeError::duplicate("lastUpdated"))
                    } else if sc {
                        versioning_fields(s, j, lat, rel, vers, Some(String::new()))
                    } else {
                        match read_leaf_rest(s, j, nm.as_str()) {
                            Some((txt, k)) => versioning_fields(s, k, lat, rel, vers, Some(txt)),
                            None => Err(DecodeError::syntax("malformed document")),
                        }
                    }
                } else if str_eq(nm.as_str(), "versions") {
                    if vers.is_some() {
                        Err(DecodeError::duplicate("versions"))
                    } else if sc {
                        let none_seen: Vec<String> = Vec::new();
                        proof {
                            assert(none_seen.deep_view() =~= Seq::<Seq<char>>::empty());
                        }
                        versioning_fields(s, j, lat, rel, Some(none_seen), lu)
                    } else {
                        let none_seen: Vec<String> = Vec::new();
                        proof {
                            assert(none_seen.deep_view() =~= Seq::<Seq<char>>::empty());
                        }
                        match version_list(s, j, none_seen) {
                            Ok((vs, k)) => versioning_fields(s, k, lat, rel, Some(vs), lu),
                            Err(e) => Err(e),
                        }
                    }
                } else {
                    if sc {
                        versioning_fields(s, j, lat, rel, vers, lu)
                    } else {
                        match skip_content(s, j) {
                            Some(k) => versioning_fields(s, k, lat, rel, vers, lu),
                            None => Err(DecodeError::syntax("malformed document")),
                        }
                    }
                }
            },
            None => Err(DecodeError::syntax("malformed document")),
        }
    } else {
        Err(DecodeError::syntax("malformed document"))
    }
}

fn meta_fields(
    s: &str,
    i: usize,
    g: Option<String>,
    a: Option<String>,
    v: Option<Versioning>,
) -> (r: Result<(MavenMetadata, usize), DecodeError>)
    requires
        i <= s@.len(),
    ensures
        mf_view(r) == spec_meta_fields(
            s@,
            i as int,
            opt_str_view(g),
            opt_str_view(a),
            opt_vsg_view(v),
        ),
        r matches Ok(p) ==> i < p.1 <= s@.len(),
    decreases s@.len() - i,
{
    let n = s.unicode_len();
    let w = skip_ws(s, i);
    if !(w < n) {
        return Err(DecodeError::syntax("malformed document"));
    }
    if s.get_char(w) == '<' && w + 1 < n && s.get_char(w + 1) == '/' {
        match read_close(s, w) {
            Some((nm, j)) => {
                if str_eq(nm.as_str(), "metadata") {
                    match (g, a, v) {
                        (Some(gv), Some(av), Some(vv)) => Ok(
                            (
                                MavenMetadata {
                                    group_id: gv,
                                    artifact_id: av,
                                    versioning: vv,
                                },
                                j,
                            ),
                        ),
                        (None, _, _) => Err(DecodeError::missing("groupId")),
                        (_, None, _) => Err(DecodeError::missing("artifactId")),
                        (_, _, None) => Err(DecodeError::missing("versioning")),
                    }
                } else {
                    Err(DecodeError::syntax("malformed document"))
                }
            },
            None => Err(DecodeError::syntax("malformed document")),
        }
    } else if s.get_char(w) == '<' {
        match read_open(s, w) {
            Some((nm, j, sc)) => {
                if str_eq(nm.as_str(), "groupId") {
                    if g.is_some() {
                        Err(DecodeError::duplicate("groupId"))
                    } else if sc {
                        meta_fields(s, j, Some(String::new()), a, v)
                    } else {
                        match read_leaf_rest(s, j, nm.as_str()) {
                            Some((txt, k)) => meta_fields(s, k, Some(txt), a, v),
                            None => Err(DecodeError::syntax("malformed document")),
                        }
                    }
                } else if str_eq(nm.as_str(), "artifactId") {
                    if a.is_some() {
                        Err(DecodeError::duplicate("artifactId"))
                    } else if sc {
                        meta_fields(s, j, g, Some(String::new()), v)
                    } else {
                        match read_leaf_rest(s, j, nm.as_str()) {
                            Some((txt, k)) => meta_fields(s, k, g, Some(txt), v),
                            None => Err(DecodeError::syntax("malformed document")),
                        }
                    }
                } else if str_eq(nm.as_str(), "versioning") {
                    if v.is_some() {
                        Err(DecodeError::duplicate("versioning"))
                    } else if sc {
                        Err(DecodeError::missing("latest"))
                    } else {
                        match versioning_fields(s, j, None, None, None, None) {
                            Ok((vv, k)) => meta_fields(s, k, g, a, Some(vv)),
                            Err(e) => Err(e),
                        }
                    }
                } else {
                    if sc {
                        meta_fields(s, j, g, a, v)
                    } else {
                        match skip_content(s, j) {
                            Some(k) => meta_fields(s, k, g, a, v),
                            None => Err(DecodeError::syntax("malformed document")),
                        }
                    }
                }
            },
            None => Err(DecodeError::syntax("malformed document")),
        }
    } else {
        Err(DecodeError::syntax("malformed document"))
    }
}

fn dep_fields(
    s: &str,
    i: usize,
    g: Option<String>,
    a: Option<String>,
    ver: Option<String>,
    sco: Option<String>,
) -> (r: Result<(Dependency, usize), DecodeError>)
    requires
        i <= s@.len(),
    ensures
        df_view(r) == spec_dep_fields(
            s@,
            i as int,
            opt_str_view(g),
            opt_str_view(a),
            opt_str_view(ver),
            opt_str_view(sco),
        ),
        r matches Ok(p) ==> i < p.1 <= s@.len(),
    decreases s@.len() - i,
{
    let n = s.unicode_len();
    let w = skip_ws(s, i);
    if !(w < n) {
        return Err(DecodeError::syntax("malformed document"));
    }
    if s.get_char(w) == '<' && w + 1 < n && s.get_char(w + 1) == '/' {
        match read_close(s, w) {
            Some((nm, j)) => {
                if str_eq(nm.as_str(), "dependency") {
                    match (g, a, ver) {
                        (Some(gv), Some(av), Some(vv)) => Ok(
                            (
                                Dependency {
                                    group_id: gv,
                                    artifact_id: av,
                                    version: vv,
                                    scope: sco,
                                },
                                j,
                            ),
                        ),
                        (None, _, _) => Err(DecodeError::missing("groupId")),
                        (_, None, _) => Err(DecodeError::missing("artifactId")),
                        (_, _, None) => Err(DecodeError::missing("version")),
                    }
                } else {
                    Err(DecodeError::syntax("malformed document"))
                }
            },
            None => Err(DecodeError::syntax("malformed document")),
        }
    } else if s.get_char(w) == '<' {
        match read_open(s, w) {
            Some((nm, j, sc)) => {
                if str_eq(nm.as_str(), "groupId") {
                    if g.is_some() {
                        Err(DecodeError::duplicate("groupId"))
                    } else if sc {
                        dep_fields(s, j, Some(String::new()), a, ver, sco)
                    } else {
                        match read_leaf_rest(s, j, nm.as_str()) {
                            Some((txt, k)) => dep_fields(s, k, Some(txt), a, ver, sco),
                            None => Err(DecodeError::syntax("malformed document")),
                        }
                    }
                } else if str_eq(nm.as_str(), "artifactId") {
                    if a.is_some() {
                        Err(DecodeError::duplicate("artifactId"))
                    } else if sc {
                        dep_fields(s, j, g, Some(String::new()), ver, sco)
                    } else {
                        match read_leaf_rest(s, j, nm.as_str()) {
                            Some((txt, k)) => dep_fields(s, k, g, Some(txt), ver, sco),
                            None => Err(DecodeError::syntax("malformed document")),
                        }
                    }
                } else if str_eq(nm.as_str(), "version") {
                    if ver.is_some() {
                        Err(DecodeError::duplicate("version"))
                    } else if sc {
                        dep_fields(s, j, g, a, Some(String::new()), sco)
                    } else {
                        match read_leaf_rest(s, j, nm.as_str()) {
                            Some((txt, k)) => dep_fields(s, k, g, a, Some(txt), sco),
                            None => Err(DecodeError::syntax("malformed document")),
                        }
                    }
                } else if str_eq(nm.as_str(), "scope") {
                    if sco.is_some() {
                        Err(DecodeError::duplicate("scope"))
                    } else if sc {
                        dep_fields(s, j, g, a, ver, Some(String::new()))
                    } else {
                        match read_leaf_rest(s, j, nm.as_str()) {
                            Some((txt, k)) => dep_fields(s, k, g, a, ver, Some(txt)),
                            None => Err(DecodeError::syntax("malformed document")),
                        }
                    }
                } else {
                    if sc {
                        dep_fields(s, j, g, a, ver, sco)
                    } else {
                        match skip_content(s, j) {
                            Some(k) => dep_fields(s, k, g, a, ver, sco),
                            None => Err(DecodeError::syntax("malformed document")),
                        }
                    }
                }
            },
            None => Err(DecodeError::syntax("malformed document")),
        }
    } else {
        Err(DecodeError::syntax("malformed document"))
    }
}

fn dep_list(s: &str, i: usize, acc: Vec<Dependency>) -> (r: Result<
    (Vec<Dependency>, usize),
    DecodeError,
>)
    requires
        i <= s@.len(),
    ensures
        dl_view(r) == spec_dep_list(s@, i as int, acc.deep_view()),
        r matches Ok(p) ==> i < p.1 <= s@.len(),
    decreases s@.len() - i,
{
    let n = s.unicode_len();
    let w = skip_ws(s, i);
    if !(w < n) {
        return Err(DecodeError::syntax("malformed document"));
    }
    if s.get_char(w) == '<' && w + 1 < n && s.get_char(w + 1) == '/' {
        match read_close(s, w) {
            Some((nm, j)) => {
                if str_eq(nm.as_str(), "dependencies") {
                    Ok((acc, j))
                } else {
                    Err(DecodeError::syntax("malformed document"))
                }
            },
            None => Err(DecodeError::syntax("malformed document")),
        }
    } else if s.get_char(w) == '<' {
        match read_open(s, w) {
            Some((nm, j, sc)) => {
                if str_eq(nm.as_str(), "dependency") {
                    if sc {
                        Err(DecodeError::missing("groupId"))
                    } else {
                        match dep_fields(s, j, None, None, None, None) {
                            Ok((d, k)) => {
                                let ghost dv = d@;
                                let mut acc2 = acc;
                                acc2.push(d);
                                proof {
                                    assert(acc2.deep_view() =~= acc.deep_view().push(dv));
                                }
                                dep_list(s, k, acc2)
                            },
                            Err(e) => Err(e),
                        }
                    }
                } else {
                    if sc {
                        dep_list(s, j, acc)
                    } else {
                        match skip_content(s, j) {
                            Some(k) => dep_list(s, k, acc),
                            None => Err(DecodeError::syntax("malformed document")),
                        }
                    }
                }
            },
            None => Err(DecodeError::syntax("malformed document")),
        }
    } else {
        Err(DecodeError::syntax("malformed document"))
    }
}

fn pom_fields(s: &str, i: usize, deps: Option<Vec<Dependency>>) -> (r: Result<
    (MavenPom, usize),
    DecodeError,
>)
    requires
        i <= s@.len(),
    ensures
        pf_view(r) == spec_pom_fields(
            s@,
            i as int,
            match deps {
                Some(ds) => Some(ds.deep_view()),
                None => None,
            },
        ),
        r matches Ok(p) ==> i < p.1 <= s@.len(),
    decreases s@.len() - i,
{
    let n = s.unicode_len();
    let w = skip_ws(s, i);
    if !(w < n) {
        return Err(DecodeError::syntax("malformed document"));
    }
    if s.get_char(w) == '<' && w + 1 < n && s.get_char(w + 1) == '/' {
        match read_close(s, w) {
            Some((nm, j)) => {
                if str_eq(nm.as_str(), "project") {
                    match deps {
                        Some(ds) => Ok((MavenPom { dependencies: Dependencies { dependency: ds } }, j)),
                        None => Err(DecodeError::missing("dependencies")),
                    }
                } else {
                    Err(DecodeError::syntax("malformed document"))
                }
            },
            None => Err(DecodeError::syntax("malformed document")),
        }
    } else if s.get_char(w) == '<' {
        match read_open(s, w) {
            Some((nm, j, sc)) => {
                if str_eq(nm.as_str(), "dependencies") {
                    if deps.is_some() {
                        Err(DecodeError::duplicate("dependencies"))
                    } else if sc {
                        let none_seen: Vec<Dependency> = Vec::new();
                        proof {
                            assert(none_seen.deep_view() =~= Seq::<DependencyModel>::empty());
                        }
                        pom_fields(s, j, Some(none_seen))
                    } else {
                        let none_seen: Vec<Dependency> = Vec::new();
                        proof {
                            assert(none_seen.deep_view() =~= Seq::<DependencyModel>::empty());
                        }
                        match dep_list(s, j, none_seen) {
                            Ok((ds, k)) => pom_fields(s, k, Some(ds)),
                            Err(e) => Err(e),
                        }
                    }
                } else {
                    if sc {
                        pom_fields(s, j, deps)
                    } else {
                        match skip_content(s, j) {
                            Some(k) => pom_fields(s, k, deps),
                            None => Err(DecodeError::syntax("malformed document")),
                        }
                    }
                }
            },
            None => Err(DecodeError::syntax("malformed document")),
        }
    } else {
        Err(DecodeError::syntax("malformed document"))
    }
}

impl MavenPom {
    /// Decodes a per-version POM descriptor document.
    ///
    /// The result is exactly what [`spec_decode_pom`] assigns to the
    /// document text: the dependency entries in document order for a
    /// well-formed document, and an error (never a default or partial
    /// value) for a malformed one. A second call on equal text yields
    /// an equal result, since the outcome is a function of the text
    /// alone.
    pub fn decode(text: &str) -> (r: Result<MavenPom, DecodeError>)
        ensures
            pom_res_view(r) == spec_decode_pom(text@),
    {
        let n = text.unicode_len();
        match skip_prolog(text, 0) {
            Some(i) => match read_open(text, i) {
                Some((nm, j, sc)) => {
                    if !str_eq(nm.as_str(), "project") {
                        Err(DecodeError::syntax("malformed document"))
                    } else if sc {
                        Err(DecodeError::missing("dependencies"))
                    } else {
                        match pom_fields(text, j, None) {
                            Ok((p, k)) => {
                                let e2 = skip_ws(text, k);
                                if e2 == n {
                                    Ok(p)
                                } else {
                                    Err(DecodeError::syntax("malformed document"))
                                }
                            },
                            Err(e) => Err(e),
                        }
                    }
                },
                None => Err(DecodeError::syntax("malformed document")),
            },
            None => Err(DecodeError::syntax("malformed document")),
        }
    }
}

impl MavenMetadata {
    /// Decodes a per-artifact repository metadata document.
    ///
    /// The result is exactly what [`spec_decode_metadata`] assigns to
    /// the document text: the fully populated value for a well-formed
    /// document, and an error (never a default or partial value) for a
    /// malformed one. A second call on equal text yields an equal
    /// result, since the outcome is a function of the text alone.
    pub fn decode(text: &str) -> (r: Result<MavenMetadata, DecodeError>)
        ensures
            meta_res_view(r) == spec_decode_metadata(text@),
    {
        let n = text.unicode_len();
        match skip_prolog(text, 0) {
            Some(i) => match read_open(text, i) {
                Some((nm, j, sc)) => {
                    if !str_eq(nm.as_str(), "metadata") {
                        Err(DecodeError::syntax("malformed document"))
                    } else if sc {
                        Err(DecodeError::missing("groupId"))
                    } else {
                        match meta_fields(text, j, None, None, None) {
                            Ok((m, k)) => {
                                let e2 = skip_ws(text, k);
                                if e2 == n {
                                    Ok(m)
                                } else {
                                    Err(DecodeError::syntax("malformed document"))
                                }
                            },
                            Err(e) => Err(e),
                        }
                    }
                },
                None => Err(DecodeError::syntax("malformed document")),
            },
            None => Err(DecodeError::syntax("malformed document")),
        }
    }
}

} // verus!
