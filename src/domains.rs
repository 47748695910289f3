//! The image domains of the application.
use crate::format::TargetFormat;
use crate::service::{DomainConfig, ImageService};
use vstd::prelude::*;

verus! {

/// All image domains, each with its own container and policy.
#[derive(Clone, Debug)]
pub struct ImageServices {
    pub avatar: ImageService,
    pub person_photo: ImageService,
    pub test: ImageService,
}

impl ImageServices {
    /// The application's domains, with container names under `prefix`:
    /// avatars at 128x128, person photos at 768x1024 and test uploads at
    /// 200x128, all stored as JPEG with the default filter.
    pub fn new(prefix: &str) -> (r: ImageServices)
        ensures
            r.avatar@ == (DomainConfig {
                container: prefix@ + "avatar"@,
                format: Some(TargetFormat::Jpeg),
                size: Some((128u32, 128u32)),
                filter: None,
            }),
            r.person_photo@ == (DomainConfig {
                container: prefix@ + "person-photo"@,
                format: Some(TargetFormat::Jpeg),
                size: Some((768u32, 1024u32)),
                filter: None,
            }),
            r.test@ == (DomainConfig {
                container: prefix@ + "test"@,
                format: Some(TargetFormat::Jpeg),
                size: Some((200u32, 128u32)),
                filter: None,
            }),
    {
        ImageServices {
            avatar: ImageService::new(prefix, "avatar", Some(TargetFormat::Jpeg), Some((128u32, 128u32)), None),
            person_photo: ImageService::new(
                prefix,
                "person-photo",
                Some(TargetFormat::Jpeg),
                Some((768u32, 1024u32)),
                None,
            ),
            test: ImageService::new(prefix, "test", Some(TargetFormat::Jpeg), Some((200u32, 128u32)), None),
        }
    }
}

} // verus!
