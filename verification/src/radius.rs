use crate::json::opt_str_field;
use crate::json::opt_str_list_field;
use crate::json::spec_opt_str_field;
use crate::json::spec_opt_str_list_field;
use crate::json::JsonValue;
use crate::json::SpecJson;
use vstd::prelude::*;
use vstd::string::*;

verus! {

/// Network-provisioning attributes carried by the attribute-bearing provider:
/// every field is optional in the payload. `dns_servers` and `routes` are
/// accepted in the data model but never rendered into the provisioning file;
/// that is a deliberate scope boundary of the result sink.
#[derive(Debug, Clone)]
pub struct RadiusResponseOpts {
    pub dns_servers: Option<Vec<String>>,
    pub routes: Option<Vec<String>>,
    pub ip: Option<String>,
    pub netmask: Option<String>,
}

/// Model of the attributes, as the contracts speak of them.
pub struct SpecRadiusOpts {
    pub dns_servers: Option<Seq<Seq<char>>>,
    pub routes: Option<Seq<Seq<char>>>,
    pub ip: Option<Seq<char>>,
    pub netmask: Option<Seq<char>>,
}

pub open spec fn radius_opts_view(o: RadiusResponseOpts) -> SpecRadiusOpts {
    SpecRadiusOpts {
        dns_servers: o.dns_servers.deep_view(),
        routes: o.routes.deep_view(),
        ip: o.ip.deep_view(),
        netmask: o.netmask.deep_view(),
    }
}

/// The shape the attribute-bearing provider's body must have: an object
/// whose known fields are text (`ip`, `netmask`) or lists of text
/// (`dns_servers`, `routes`), each optional; unknown fields are ignored.
pub open spec fn spec_radius_opts(m: SpecJson) -> Option<SpecRadiusOpts> {
    match m {
        SpecJson::Obj(fs) => match (
            spec_opt_str_list_field(fs, "dns_servers"@),
            spec_opt_str_list_field(fs, "routes"@),
            spec_opt_str_field(fs, "ip"@),
            spec_opt_str_field(fs, "netmask"@),
        ) {
            (Some(d), Some(r), Some(i), Some(n)) => Some(
                SpecRadiusOpts { dns_servers: d, routes: r, ip: i, netmask: n },
            ),
            _ => None,
        },
        _ => None,
    }
}

/// Reads the attributes out of a decoded body, or reports that the payload
/// does not have the promised shape.
pub fn radius_from_json(v: &JsonValue) -> (r: Option<RadiusResponseOpts>)
    ensures
        match r {
            None => spec_radius_opts(v.view()) is None,
            Some(o) => spec_radius_opts(v.view()) == Some(radius_opts_view(o)),
        },
{
    match v {
        JsonValue::Obj(fs) => {
            let dns_servers = match opt_str_list_field(fs, "dns_servers") {
                None => {
                    return None;
                },
                Some(x) => x,
            };
            let routes = match opt_str_list_field(fs, "routes") {
                None => {
                    return None;
                },
                Some(x) => x,
            };
            let ip = match opt_str_field(fs, "ip") {
                None => {
                    return None;
                },
                Some(x) => x,
            };
            let netmask = match opt_str_field(fs, "netmask") {
                None => {
                    return None;
                },
                Some(x) => x,
            };
            Some(RadiusResponseOpts { dns_servers, routes, ip, netmask })
        },
        _ => None,
    }
}

/// One pending file write of the result sink: where, and what.
#[derive(Debug, Clone)]
pub struct ProvisioningWrite {
    pub path: String,
    pub content: String,
}

/// The two lines pushed to a client session: a fixed subnet-topology
/// directive, then an interface-configuration push built from `ip` and
/// `netmask`.
pub open spec fn spec_provisioning_content(ip: Seq<char>, netmask: Seq<char>) -> Seq<char> {
    "topology subnet\nifconfig-push "@ + ip + " "@ + netmask
}

/// Path of the per-user provisioning file: `{ccd}/{username}`, inserting the
/// separator only when the directory path does not already end with one.
pub open spec fn spec_ccd_path(ccd: Seq<char>, username: Seq<char>) -> Seq<char> {
    if ccd.len() > 0 && ccd.last() == '/' {
        ccd + username
    } else {
        ccd + "/"@ + username
    }
}

/// Builds the provisioning file body from the two present attributes.
pub fn provisioning_content(ip: &String, netmask: &String) -> (r: String)
    ensures
        r@ == spec_provisioning_content(ip@, netmask@),
{
    let mut s: String = "topology subnet\nifconfig-push ".to_owned();
    s.append(ip.as_str());
    s.append(" ");
    s.append(netmask.as_str());
    proof {
        assert(s@ =~= spec_provisioning_content(ip@, netmask@));
    }
    s
}

/// Joins the client-config directory and the username into the file path.
pub fn ccd_file_path(ccd: &String, username: &String) -> (r: String)
    ensures
        r@ == spec_ccd_path(ccd@, username@),
{
    let n = ccd.as_str().unicode_len();
    let ends_with_sep: bool = if n > 0 {
        ccd.as_str().get_char(n - 1) == '/'
    } else {
        false
    };
    let mut s = ccd.clone();
    if !ends_with_sep {
        s.append("/");
    }
    s.append(username.as_str());
    proof {
        assert(s@ =~= spec_ccd_path(ccd@, username@));
    }
    s
}

/// The provisioning write is owed exactly when a client-config directory is
/// configured and the attributes carry both an address and a netmask.
pub open spec fn spec_provisioning_due(opts: RadiusResponseOpts, ccd: Option<Seq<char>>) -> bool {
    ccd is Some && opts.ip is Some && opts.netmask is Some
}

pub open spec fn spec_ccd_view(ccd: Option<String>) -> Option<Seq<char>> {
    match ccd {
        Some(s) => Some(s@),
        None => None,
    }
}

/// Decides the provisioning write for one accepted attribute-bearing
/// response: `Some` exactly when it is due, and then with the exact path and
/// file body the host expects.
pub fn provisioning_plan(opts: &RadiusResponseOpts, ccd: &Option<String>, username: &String) -> (r:
    Option<ProvisioningWrite>)
    ensures
        r is Some <==> spec_provisioning_due(*opts, spec_ccd_view(*ccd)),
        r matches Some(w) ==> {
            &&& w.path@ == spec_ccd_path(ccd->0@, username@)
            &&& w.content@ == spec_provisioning_content(opts.ip->0@, opts.netmask->0@)
        },
{
    match (ccd, &opts.ip, &opts.netmask) {
        (Some(dir), Some(ip), Some(netmask)) => {
            Some(
                ProvisioningWrite {
                    path: ccd_file_path(dir, username),
                    content: provisioning_content(ip, netmask),
                },
            )
        },
        _ => None,
    }
}

} // verus!
