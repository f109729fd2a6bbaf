[package]
name = "hurlfmt_pipeline"
version = "0.1.0"
edition = "2021"
publish = false

[dependencies]
colored = "=2.2.0"
hurl_core = "=4.3.0"
# Not used directly: `hurl_core` links libxml2 through this crate. Held at the
# release that ships its bindings; later ones generate them at build time and
# need libclang for that.
libxml = "=0.3.3"
