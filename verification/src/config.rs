//! Run configuration, assembled from values the surrounding command-line
//! or environment parsing hands in, with the fixed defaults applied here.

use vstd::prelude::*;

verus! {

/// The default hour span: three days of data.
pub const DEFAULT_HOUR_SPAN: u32 = 72;

/// The default PostgreSQL port.
pub const DEFAULT_PORT: u16 = 5432;

/// One invocation's configuration: the window, the store to dial, and
/// where to write the image.
#[derive(Clone, Debug)]
pub struct Opt {
    /// Number of hours of data to obtain.
    pub hour_span: u32,
    /// Database host.
    pub host: String,
    /// Database port.
    pub port: u16,
    /// Database username.
    pub username: String,
    /// Database password.
    pub password: String,
    /// Database name.
    pub dbname: String,
    /// File path to output to.
    pub output: String,
}

/// Configuration of an object-storage output target.
#[derive(Clone, Debug)]
pub struct LambdaOpt {
    /// Storage bucket.
    pub bucket: String,
    /// Storage key.
    pub key: String,
    /// Make files public.
    pub public: bool,
}

/// Assembles the configuration, filling each absent value with its
/// default: a 72-hour window, port 5432, and `out.png` as output path.
pub fn get_config(
    hour_span: Option<u32>,
    host: String,
    port: Option<u16>,
    username: String,
    password: String,
    dbname: String,
    output: Option<String>,
) -> (o: Opt)
    ensures
        hour_span matches Some(h) ==> o.hour_span == h,
        hour_span is None ==> o.hour_span == DEFAULT_HOUR_SPAN,
        o.host == host,
        port matches Some(p) ==> o.port == p,
        port is None ==> o.port == DEFAULT_PORT,
        o.username == username,
        o.password == password,
        o.dbname == dbname,
        output matches Some(p) ==> o.output == p,
        output is None ==> o.output@ == "out.png"@,
{
    let hour_span = match hour_span {
        Some(h) => h,
        None => DEFAULT_HOUR_SPAN,
    };
    let port = match port {
        Some(p) => p,
        None => DEFAULT_PORT,
    };
    let output = match output {
        Some(p) => p,
        None => "out.png".to_owned(),
    };
    Opt { hour_span, host, port, username, password, dbname, output }
}

} // verus!
