//! Releases and their assets, as the release feed of a repository lists them.

use vstd::prelude::*;

verus! {

/// One downloadable file attached to a release.
#[derive(Debug, Clone)]
pub struct Asset {
    /// Where the file is fetched from.
    pub url: String,
    /// The name the file is shown under, and the default name it is saved as.
    pub name: String,
}

/// A published, tagged bundle of assets.
#[derive(Debug, Clone)]
pub struct Release {
    pub tag_name: String,
    /// Set by the publisher on a release that is not meant as stable.
    pub prerelease: bool,
    pub assets: Vec<Asset>,
}

/// An asset as a mathematical value.
pub struct AssetView {
    pub url: Seq<char>,
    pub name: Seq<char>,
}

/// A release as a mathematical value.
pub struct ReleaseView {
    pub tag_name: Seq<char>,
    pub prerelease: bool,
    pub assets: Seq<AssetView>,
}

impl View for Asset {
    type V = AssetView;

    open spec fn view(&self) -> AssetView {
        AssetView { url: self.url@, name: self.name@ }
    }
}

impl View for Release {
    type V = ReleaseView;

    open spec fn view(&self) -> ReleaseView {
        ReleaseView {
            tag_name: self.tag_name@,
            prerelease: self.prerelease,
            assets: asset_views(self.assets@),
        }
    }
}

/// The values of a sequence of assets, in the same order.
pub open spec fn asset_views(assets: Seq<Asset>) -> Seq<AssetView> {
    assets.map_values(|a: Asset| a@)
}

/// The values of a sequence of releases, in the same order.
pub open spec fn release_views(releases: Seq<Release>) -> Seq<ReleaseView> {
    releases.map_values(|r: Release| r@)
}

/// Something a chooser can show as one line of text.
pub trait Renderable: Sized {
    /// The line of text the item is shown as.
    spec fn label(&self) -> Seq<char>;

    /// The renderer for items of this type.
    fn get_render() -> GithubRender;

    /// The item's line of text.
    fn rendered(&self) -> (text: &str)
        ensures
            text@ == self.label(),
    ;
}

/// Renders releases by their tag and assets by their name.
#[derive(Debug, Clone, Copy)]
pub struct GithubRender;

impl GithubRender {
    /// The text shown for `item`.
    pub fn render<'a, T: Renderable>(&self, item: &'a T) -> (text: &'a str)
        ensures
            text@ == item.label(),
    {
        item.rendered()
    }
}

impl Renderable for Release {
    open spec fn label(&self) -> Seq<char> {
        self.tag_name@
    }

    fn get_render() -> GithubRender {
        GithubRender
    }

    fn rendered(&self) -> (text: &str) {
        self.tag_name.as_str()
    }
}

impl Renderable for Asset {
    open spec fn label(&self) -> Seq<char> {
        self.name@
    }

    fn get_render() -> GithubRender {
        GithubRender
    }

    fn rendered(&self) -> (text: &str) {
        self.name.as_str()
    }
}

} // verus!
