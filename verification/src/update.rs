//! Releases of the program, as the release service describes them.
use vstd::prelude::*;
use vstd::string::StringExecFns;

verus! {

/// A file that belongs to a release.
#[derive(Debug)]
pub struct Assets {
    pub name: String,
    pub browser_download_url: String,
}

/// The mathematical value of an [`Assets`].
pub struct AssetsView {
    pub name: Seq<char>,
    pub browser_download_url: Seq<char>,
}

impl View for Assets {
    type V = AssetsView;

    open spec fn view(&self) -> AssetsView {
        AssetsView { name: self.name@, browser_download_url: self.browser_download_url@ }
    }
}

impl DeepView for Assets {
    type V = AssetsView;

    open spec fn deep_view(&self) -> AssetsView {
        self@
    }
}

impl Clone for Assets {
    fn clone(&self) -> (copy: Self)
        ensures
            copy == *self,
    {
        Assets {
            name: self.name.clone(),
            browser_download_url: self.browser_download_url.clone(),
        }
    }
}

/// A published release.
#[derive(Debug)]
pub struct Release {
    pub name: String,
    /// The version of the release, written `v` and the version number.
    pub tag_name: String,
    /// The release notes.
    pub body: String,
    pub assets: Vec<Assets>,
}

/// The mathematical value of a [`Release`].
pub struct ReleaseView {
    pub name: Seq<char>,
    pub tag_name: Seq<char>,
    pub body: Seq<char>,
    pub assets: Seq<AssetsView>,
}

impl View for Release {
    type V = ReleaseView;

    open spec fn view(&self) -> ReleaseView {
        ReleaseView {
            name: self.name@,
            tag_name: self.tag_name@,
            body: self.body@,
            assets: self.assets.deep_view(),
        }
    }
}

impl Clone for Release {
    fn clone(&self) -> (copy: Self)
        ensures
            copy@ == self@,
    {
        let mut assets: Vec<Assets> = Vec::new();
        let mut i: usize = 0;
        while i < self.assets.len()
            invariant
                i <= self.assets.len(),
                assets.len() == i,
                forall|j: int| 0 <= j < i ==> assets[j] == self.assets[j],
            decreases self.assets.len() - i,
        {
            assets.push(self.assets[i].clone());
            i += 1;
        }
        assert(assets.deep_view() =~= self.assets.deep_view());
        Release {
            name: self.name.clone(),
            tag_name: self.tag_name.clone(),
            body: self.body.clone(),
            assets,
        }
    }
}

/// The tag that the release of a version carries.
pub open spec fn tag_of(version: Seq<char>) -> Seq<char> {
    "v"@ + version
}

/// Whether a release is another one than the running version, that is,
/// whether its tag differs from the tag of that version.
pub fn is_update(release: &Release, version: &str) -> (newer: bool)
    ensures
        newer == (release@.tag_name != tag_of(version@)),
{
    let current = "v".to_owned().concat(version);
    !(release.tag_name == current)
}

} // verus!
