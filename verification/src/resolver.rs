//! Deciding which container image the instance runs: the bundled metadata
//! names a strategy, and the decision is made exactly once per test session
//! (the caller memoizes the result behind its cache).

use vstd::prelude::*;
use vstd::string::StringExecFns;

verus! {

/// The bundled image metadata, reduced to the fields the decision reads.
/// A field is `None` where the metadata lacks it or holds a value of the
/// wrong shape.
#[derive(Clone, Debug)]
pub struct ImageMetadata {
    pub strategy: Option<String>,
    pub image_name: Option<String>,
    pub image_tag: Option<String>,
}

/// How the image is to be obtained: by loading the bundled archive into the
/// local container engine, or by using a prebuilt registry image.
#[derive(Clone, Debug, PartialEq, Eq)]
pub enum ImagePlan {
    /// Load the bundled compressed archive; its content-addressed tag is
    /// derived while loading, under the fixed name reported by
    /// [`build_image_name`].
    Build,
    /// Use the registry image recorded in the metadata.
    Prebuilt { name: String, tag: String },
}

/// Why no image could be resolved. Each of these means the test environment
/// itself is broken, not the protocol under test.
#[derive(Clone, Debug, PartialEq, Eq)]
pub enum ImageResolutionError {
    /// The metadata carries no strategy string.
    MissingStrategy,
    /// The prebuilt strategy lacks an image name string.
    MissingImageName,
    /// The prebuilt strategy lacks an image tag string.
    MissingImageTag,
    /// The bundle was built with interop intentionally disabled; resolving
    /// fails immediately and explicitly rather than silently doing nothing.
    InteropDisabled,
    /// The metadata names a strategy this harness does not know.
    UnknownStrategy { strategy: String },
}

/// Whether `s` holds exactly the characters of `lit`.
fn is_lit(s: &String, lit: &str) -> (r: bool)
    ensures
        r == (s@ == lit@),
{
    let l = String::from_str(lit);
    s.eq(&l)
}

/// Decides how the instance's image is to be obtained from the bundled
/// metadata. Total over the metadata shape: every malformed or disabled
/// configuration is reported as its own error.
pub fn resolve_plan(meta: &ImageMetadata) -> (r: Result<ImagePlan, ImageResolutionError>)
    ensures
        (meta.strategy is None ==> r == Err::<ImagePlan, ImageResolutionError>(
            ImageResolutionError::MissingStrategy,
        )),
        (meta.strategy matches Some(s) ==> {
            if s@ == "build"@ {
                r == Ok::<ImagePlan, ImageResolutionError>(ImagePlan::Build)
            } else if s@ == "prebuilt"@ {
                match (meta.image_name, meta.image_tag) {
                    (Option::Some(n), Option::Some(t)) => r matches Ok(p) && p matches
                        ImagePlan::Prebuilt { name, tag } && name@ == n@ && tag@ == t@,
                    (Option::None, _) => r == Err::<ImagePlan, ImageResolutionError>(
                        ImageResolutionError::MissingImageName,
                    ),
                    (Option::Some(_), Option::None) => r == Err::<ImagePlan, ImageResolutionError>(
                        ImageResolutionError::MissingImageTag,
                    ),
                }
            } else if s@ == "skip"@ {
                r == Err::<ImagePlan, ImageResolutionError>(ImageResolutionError::InteropDisabled)
            } else {
                r matches Err(e) && e matches ImageResolutionError::UnknownStrategy { strategy }
                    && strategy@ == s@
            }
        }),
{
    let strategy = match &meta.strategy {
        Option::Some(s) => s,
        Option::None => {
            return Err(ImageResolutionError::MissingStrategy);
        },
    };
    if is_lit(strategy, "build") {
        Ok(ImagePlan::Build)
    } else if is_lit(strategy, "prebuilt") {
        let name = match &meta.image_name {
            Option::Some(n) => n.clone(),
            Option::None => {
                return Err(ImageResolutionError::MissingImageName);
            },
        };
        let tag = match &meta.image_tag {
            Option::Some(t) => t.clone(),
            Option::None => {
                return Err(ImageResolutionError::MissingImageTag);
            },
        };
        Ok(ImagePlan::Prebuilt { name, tag })
    } else if is_lit(strategy, "skip") {
        Err(ImageResolutionError::InteropDisabled)
    } else {
        Err(ImageResolutionError::UnknownStrategy { strategy: strategy.clone() })
    }
}

/// The fixed image name under which a freshly loaded archive is addressed:
/// the tag derived while loading is content-addressed.
pub fn build_image_name() -> (r: &'static str)
    ensures
        r@ == "sha256"@,
{
    "sha256"
}

} // verus!
