# fulltime-plugin-api (verified)

The plugin manifest format and the `major.minor` contract versions shared by the
FullTime plugin host and its data-provider plugins, written in Verus.

- `src/version.rs`: `Version`, its compatibility check (`accepts`), its text form
  (`to_string`) and its parser (`parse`, also `FromStr`), with the round trip from text
  form back to version proved.
- `src/manifest.rs`: the manifest's fields before checking (`RawManifest`), the
  validated `Manifest`, and `Manifest::from_raw`, whose contract names the first problem
  found in a manifest or the manifest it describes.
- `app/lib.rs`: reading a manifest from TOML through serde (`ManifestParse::parse`) and
  the `std::error::Error` forms of the errors.
