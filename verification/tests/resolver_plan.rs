use daphne_interop::resolver::{
    build_image_name, resolve_plan, ImageMetadata, ImagePlan, ImageResolutionError,
};

fn metadata(strategy: Option<&str>, name: Option<&str>, tag: Option<&str>) -> ImageMetadata {
    ImageMetadata {
        strategy: strategy.map(String::from),
        image_name: name.map(String::from),
        image_tag: tag.map(String::from),
    }
}

#[test]
fn build_strategy_resolves_to_build_plan() {
    let plan = resolve_plan(&metadata(Some("build"), None, None));
    assert_eq!(plan, Ok(ImagePlan::Build));
    assert_eq!(build_image_name(), "sha256");
}

#[test]
fn prebuilt_strategy_uses_recorded_image() {
    let plan = resolve_plan(&metadata(Some("prebuilt"), Some("example/daphne"), Some("v7")));
    assert_eq!(
        plan,
        Ok(ImagePlan::Prebuilt {
            name: String::from("example/daphne"),
            tag: String::from("v7"),
        })
    );
}

#[test]
fn prebuilt_strategy_without_name_fails() {
    let plan = resolve_plan(&metadata(Some("prebuilt"), None, Some("v7")));
    assert_eq!(plan, Err(ImageResolutionError::MissingImageName));
}

#[test]
fn prebuilt_strategy_without_tag_fails() {
    let plan = resolve_plan(&metadata(Some("prebuilt"), Some("example/daphne"), None));
    assert_eq!(plan, Err(ImageResolutionError::MissingImageTag));
}

#[test]
fn skip_strategy_fails_explicitly() {
    let plan = resolve_plan(&metadata(Some("skip"), None, None));
    assert_eq!(plan, Err(ImageResolutionError::InteropDisabled));
}

#[test]
fn missing_strategy_fails() {
    let plan = resolve_plan(&metadata(None, Some("example/daphne"), Some("v7")));
    assert_eq!(plan, Err(ImageResolutionError::MissingStrategy));
}

#[test]
fn unknown_strategy_reported_with_its_name() {
    let plan = resolve_plan(&metadata(Some("download"), None, None));
    assert_eq!(
        plan,
        Err(ImageResolutionError::UnknownStrategy { strategy: String::from("download") })
    );
}
