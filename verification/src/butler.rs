//! What is asked of the patch engine. The engine itself is outside work:
//! the workflows hand these requests to the caller, which runs the engine
//! and reports how it ended.

use vstd::prelude::*;

verus! {

/// A request to scan `target_dir` against the signature manifest at
/// `signature_url` and to repair what differs with data from `heal_url`.
#[derive(Debug, PartialEq, Eq)]
pub struct VerifyRequest {
    pub signature_url: String,
    pub target_dir: String,
    pub heal_url: String,
}

/// Mathematical model of a [`VerifyRequest`].
pub struct VerifyRequestView {
    pub signature_url: Seq<char>,
    pub target_dir: Seq<char>,
    pub heal_url: Seq<char>,
}

impl View for VerifyRequest {
    type V = VerifyRequestView;

    open spec fn view(&self) -> VerifyRequestView {
        VerifyRequestView {
            signature_url: self.signature_url@,
            target_dir: self.target_dir@,
            heal_url: self.heal_url@,
        }
    }
}

impl Clone for VerifyRequest {
    fn clone(&self) -> (copy: Self)
        ensures
            copy == *self,
    {
        VerifyRequest {
            signature_url: self.signature_url.clone(),
            target_dir: self.target_dir.clone(),
            heal_url: self.heal_url.clone(),
        }
    }
}

/// A request to download the patch package named `patch_file` from
/// `patch_url` into `staging_dir` and to apply it to `target_dir`.
#[derive(Debug, PartialEq, Eq)]
pub struct PatchRequest {
    pub patch_url: String,
    pub staging_dir: String,
    pub patch_file: String,
    pub target_dir: String,
}

/// Mathematical model of a [`PatchRequest`].
pub struct PatchRequestView {
    pub patch_url: Seq<char>,
    pub staging_dir: Seq<char>,
    pub patch_file: Seq<char>,
    pub target_dir: Seq<char>,
}

impl View for PatchRequest {
    type V = PatchRequestView;

    open spec fn view(&self) -> PatchRequestView {
        PatchRequestView {
            patch_url: self.patch_url@,
            staging_dir: self.staging_dir@,
            patch_file: self.patch_file@,
            target_dir: self.target_dir@,
        }
    }
}

impl Clone for PatchRequest {
    fn clone(&self) -> (copy: Self)
        ensures
            copy == *self,
    {
        PatchRequest {
            patch_url: self.patch_url.clone(),
            staging_dir: self.staging_dir.clone(),
            patch_file: self.patch_file.clone(),
            target_dir: self.target_dir.clone(),
        }
    }
}

} // verus!
