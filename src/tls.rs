use vstd::prelude::*;

verus! {

/// The TLS implementation a client is built with.
#[derive(Clone, Copy, Debug, PartialEq, Eq, Structural)]
pub enum TlsType {
    /// No TLS layer at all.
    Plain,
    /// The platform's native TLS implementation.
    NativeTls,
    /// The bundled pure-Rust TLS implementation.
    Rustls,
}

} // verus!
