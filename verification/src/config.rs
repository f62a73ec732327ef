//! Configuration values: server address, image handling settings, and the
//! ordered template list. A configuration is built once at startup, is
//! immutable afterwards, and is passed by reference into every component
//! that needs it. Loading and parsing the configuration document is the
//! caller's concern; missing input falls back to the defaults below.

use vstd::prelude::*;
use crate::encoding::ImageEncoding;
use crate::templates::TemplateSettings;

verus! {

/// Where the excluded transport layer binds.
#[derive(Debug)]
pub struct ServerSettings {
    pub port: u16,
    pub host: [u8; 4],
}

impl Default for ServerSettings {
    /// Port 3000 on the loopback host.
    fn default() -> (r: Self)
        ensures
            r.port == 3000,
            r.host@ == seq![127u8, 0u8, 0u8, 1u8],
    {
        let host = [127u8, 0u8, 0u8, 1u8];
        proof {
            assert(host@ =~= seq![127u8, 0u8, 0u8, 1u8]);
        }
        ServerSettings { port: 3000, host }
    }
}

/// How images are accepted, stored and served.
#[derive(Debug)]
pub struct ImageSettings {
    /// The allow-list of formats a delivery request may ask for.
    pub formats: Vec<ImageEncoding>,
    /// The canonical format every ingested image is stored in.
    pub storage_format: ImageEncoding,
    /// Where new images arrive.
    pub input_path: String,
    /// Where canonical images are stored.
    pub output_path: String,
}

impl Default for ImageSettings {
    /// All three formats allowed, AVIF storage, the documented default paths.
    fn default() -> (r: Self)
        ensures
            r.formats@ == seq![
                ImageEncoding::AVIF,
                ImageEncoding::JPEG,
                ImageEncoding::PNG,
            ],
            r.storage_format == ImageEncoding::AVIF,
            r.input_path@ == "/var/lib/wire-img/in"@,
            r.output_path@ == "/var/lib/wire-img/out"@,
    {
        let formats = vec![ImageEncoding::AVIF, ImageEncoding::JPEG, ImageEncoding::PNG];
        proof {
            assert(formats@ =~= seq![
                ImageEncoding::AVIF,
                ImageEncoding::JPEG,
                ImageEncoding::PNG,
            ]);
        }
        ImageSettings {
            formats,
            storage_format: ImageEncoding::AVIF,
            input_path: "/var/lib/wire-img/in".to_owned(),
            output_path: "/var/lib/wire-img/out".to_owned(),
        }
    }
}

/// The whole startup configuration.
#[derive(Debug)]
pub struct Settings {
    pub server: ServerSettings,
    pub image: ImageSettings,
    pub templates: Vec<TemplateSettings>,
}

impl Default for Settings {
    /// Default server and image settings, and no templates.
    fn default() -> (r: Self)
        ensures
            r.server.port == 3000,
            r.server.host@ == seq![127u8, 0u8, 0u8, 1u8],
            r.image.formats@ == seq![
                ImageEncoding::AVIF,
                ImageEncoding::JPEG,
                ImageEncoding::PNG,
            ],
            r.image.storage_format == ImageEncoding::AVIF,
            r.image.input_path@ == "/var/lib/wire-img/in"@,
            r.image.output_path@ == "/var/lib/wire-img/out"@,
            r.templates@ == Seq::<TemplateSettings>::empty(),
    {
        let templates: Vec<TemplateSettings> = Vec::new();
        proof {
            assert(templates@ =~= Seq::<TemplateSettings>::empty());
        }
        Settings { server: ServerSettings::default(), image: ImageSettings::default(), templates }
    }
}

} // verus!
