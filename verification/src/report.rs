//! The report lines the daemon emits: the per-cycle metric line consumed by
//! the metrics collaborator, and the one-time startup descriptions of the
//! reporting and archival options.

use vstd::prelude::*;
use crate::digits::{dec_chars, int_chars, i64_to_string, u64_to_string};

verus! {

/// Options of the metrics backend the outcome records are shipped to.
/// The library only describes them; the network transmission is the
/// embedding application's.
pub struct InfluxDBOptions {
    pub measurement: String,
    pub host: Option<String>,
    pub port: Option<String>,
    pub username: Option<String>,
    pub password: Option<String>,
    pub dbname: Option<String>,
    pub rpname: Option<String>,
}

/// Options of the artifact-archival collaborator invoked on failed runs.
pub struct ArtifactsOptions {
    pub artifacts_glob: Option<String>,
    pub image_artifact: Option<String>,
    pub aws_access_key: Option<String>,
    pub aws_secret_access_key: Option<String>,
}

/// A present value is shown masked, an absent one as nothing.
pub open spec fn masked(o: Option<String>) -> Seq<char> {
    if o is Some {
        "*****"@
    } else {
        Seq::<char>::empty()
    }
}

/// A present value is shown itself, an absent one as nothing.
pub open spec fn or_empty(o: Option<String>) -> Seq<char> {
    match o {
        Some(s) => s@,
        None => Seq::<char>::empty(),
    }
}

/// The exit code as reported on the metric line: the real code, or the
/// sentinel `-1` when the probe was killed or unobservable.
pub open spec fn spec_ret_code(exit_code: Option<i32>) -> int {
    match exit_code {
        Some(c) => c as int,
        None => -1,
    }
}

/// The metric line of one cycle, field for field.
pub open spec fn spec_metric_line(
    measurement: Seq<char>,
    app_name: Seq<char>,
    test_name: Seq<char>,
    exit_code: Option<i32>,
    duration_ms: u64,
    interval_secs: u32,
    routing_key: Seq<char>,
    artifact_url: Seq<char>,
    image_url: Seq<char>,
) -> Seq<char> {
    measurement + ",app="@ + app_name + ",name="@ + test_name + ",ret_code="@ + int_chars(
        spec_ret_code(exit_code),
    ) + " value=1,duration="@ + dec_chars(duration_ms as nat) + ",interval="@ + dec_chars(
        interval_secs as nat,
    ) + ",routing_key="@ + routing_key + ",artifact_url="@ + artifact_url + ",image_url="@
        + image_url
}

/// Builds the metric line of one cycle.
pub fn metric_line(
    measurement: &str,
    app_name: &str,
    test_name: &str,
    exit_code: &Option<i32>,
    duration_ms: u64,
    interval_secs: u32,
    routing_key: &str,
    artifact_url: &str,
    image_url: &str,
) -> (r: String)
    ensures
        r@ == spec_metric_line(
            measurement@,
            app_name@,
            test_name@,
            *exit_code,
            duration_ms,
            interval_secs,
            routing_key@,
            artifact_url@,
            image_url@,
        ),
{
    let ret_code: i64 = match exit_code {
        Some(c) => *c as i64,
        None => -1,
    };
    let mut r = String::new();
    r.append(measurement);
    r.append(",app=");
    r.append(app_name);
    r.append(",name=");
    r.append(test_name);
    r.append(",ret_code=");
    r.append(i64_to_string(ret_code).as_str());
    r.append(" value=1,duration=");
    r.append(u64_to_string(duration_ms).as_str());
    r.append(",interval=");
    r.append(u64_to_string(interval_secs as u64).as_str());
    r.append(",routing_key=");
    r.append(routing_key);
    r.append(",artifact_url=");
    r.append(artifact_url);
    r.append(",image_url=");
    r.append(image_url);
    proof {
        assert(r@ =~= spec_metric_line(
            measurement@,
            app_name@,
            test_name@,
            *exit_code,
            duration_ms,
            interval_secs,
            routing_key@,
            artifact_url@,
            image_url@,
        ));
    }
    r
}

/// The startup description of the metrics options, credentials masked.
pub open spec fn spec_describe_influxdb(o: InfluxDBOptions) -> Seq<char> {
    "InfluxDB[("@ + o.measurement@ + ") to http://"@ + masked(o.username) + ":"@ + masked(
        o.password,
    ) + "@"@ + or_empty(o.host) + ":"@ + or_empty(o.port) + "/write?db="@ + or_empty(o.dbname)
        + "&rp="@ + or_empty(o.rpname) + "]"@
}

/// The startup description of the archival options, the secret masked.
pub open spec fn spec_describe_artifacts(o: ArtifactsOptions) -> Seq<char> {
    "Artifacts["@ + or_empty(o.artifacts_glob) + "/"@ + or_empty(o.image_artifact) + " "@
        + or_empty(o.aws_access_key) + "/"@ + masked(o.aws_secret_access_key) + "]"@
}

/// Appends a possibly absent value.
fn append_or_empty(r: &mut String, o: &Option<String>)
    ensures
        final(r)@ == old(r)@ + or_empty(*o),
{
    match o {
        Some(s) => r.append(s.as_str()),
        None => {
            proof {
                assert(old(r)@ + or_empty(*o) =~= old(r)@);
            }
        },
    }
}

/// Appends the mask of a possibly absent value.
fn append_masked(r: &mut String, o: &Option<String>)
    ensures
        final(r)@ == old(r)@ + masked(*o),
{
    match o {
        Some(_) => r.append("*****"),
        None => {
            proof {
                assert(old(r)@ + masked(*o) =~= old(r)@);
            }
        },
    }
}

impl InfluxDBOptions {
    /// Renders the startup description of these options.
    pub fn describe(&self) -> (r: String)
        ensures
            r@ == spec_describe_influxdb(*self),
    {
        let mut r = String::new();
        r.append("InfluxDB[(");
        r.append(self.measurement.as_str());
        r.append(") to http://");
        append_masked(&mut r, &self.username);
        r.append(":");
        append_masked(&mut r, &self.password);
        r.append("@");
        append_or_empty(&mut r, &self.host);
        r.append(":");
        append_or_empty(&mut r, &self.port);
        r.append("/write?db=");
        append_or_empty(&mut r, &self.dbname);
        r.append("&rp=");
        append_or_empty(&mut r, &self.rpname);
        r.append("]");
        proof {
            assert(r@ =~= spec_describe_influxdb(*self));
        }
        r
    }
}

impl ArtifactsOptions {
    /// Renders the startup description of these options.
    pub fn describe(&self) -> (r: String)
        ensures
            r@ == spec_describe_artifacts(*self),
    {
        let mut r = String::new();
        r.append("Artifacts[");
        append_or_empty(&mut r, &self.artifacts_glob);
        r.append("/");
        append_or_empty(&mut r, &self.image_artifact);
        r.append(" ");
        append_or_empty(&mut r, &self.aws_access_key);
        r.append("/");
        append_masked(&mut r, &self.aws_secret_access_key);
        r.append("]");
        proof {
            assert(r@ =~= spec_describe_artifacts(*self));
        }
        r
    }
}

} // verus!
