//! The extension itself: the permissions it registers and where its routes
//! are mounted.
use vstd::prelude::*;

verus! {

/// A group of permissions as registered with the panel: a description and
/// `(permission, description)` pairs in display order.
#[derive(Clone, Debug)]
pub struct PermissionGroup {
    pub description: &'static str,
    pub permissions: Vec<(&'static str, &'static str)>,
}

/// The subdomain manager extension.
#[derive(Clone, Copy, Debug, Default)]
pub struct ExtensionStruct;

impl ExtensionStruct {
    /// The key both permission groups are registered under.
    pub fn permission_group_key(&self) -> (res: &'static str)
        ensures
            res@ == "subdomains"@,
    {
        "subdomains"
    }

    /// Where the admin routes are nested.
    pub fn admin_route_prefix(&self) -> (res: &'static str)
        ensures
            res@ == "/extensions/dev.caloptreyx.subdomains"@,
    {
        "/extensions/dev.caloptreyx.subdomains"
    }

    /// Where the server routes are nested.
    pub fn server_route_prefix(&self) -> (res: &'static str)
        ensures
            res@ == "/subdomains"@,
    {
        "/subdomains"
    }

    /// The server permissions: `read`, `create`, `update` and `delete`.
    pub fn server_permissions(&self) -> (res: PermissionGroup)
        ensures
            res.description@
                == "Permissions that control the ability to manage subdomains for this server."@,
            res.permissions@.len() == 4,
            res.permissions@[0].0@ == "read"@,
            res.permissions@[0].1@
                == "Allows viewing the server's subdomains, its limit and the available domains."@,
            res.permissions@[1].0@ == "create"@,
            res.permissions@[1].1@ == "Allows creating new subdomains for the server."@,
            res.permissions@[2].0@ == "update"@,
            res.permissions@[2].1@ == "Allows changing which allocation a subdomain points at."@,
            res.permissions@[3].0@ == "delete"@,
            res.permissions@[3].1@ == "Allows deleting the server's subdomains."@,
    {
        let mut permissions: Vec<(&'static str, &'static str)> = Vec::new();
        permissions.push(
            (
                "read",
                "Allows viewing the server's subdomains, its limit and the available domains.",
            ),
        );
        permissions.push(
            ("create", "Allows creating new subdomains for the server."),
        );
        permissions.push(
            (
                "update",
                "Allows changing which allocation a subdomain points at.",
            ),
        );
        permissions.push(
            ("delete", "Allows deleting the server's subdomains."),
        );
        PermissionGroup {
            description: "Permissions that control the ability to manage subdomains for this server.",
            permissions,
        }
    }

    /// The admin permissions: `read` and `manage`.
    pub fn admin_permissions(&self) -> (res: PermissionGroup)
        ensures
            res.description@
                == "Permissions that control the ability to manage the subdomain manager extension."@,
            res.permissions@.len() == 2,
            res.permissions@[0].0@ == "read"@,
            res.permissions@[0].1@
                == "Allows viewing the extension's settings, domains and all created subdomains."@,
            res.permissions@[1].0@ == "manage"@,
            res.permissions@[1].1@
                == "Allows changing settings and managing DNS domains and subdomains."@,
    {
        let mut permissions: Vec<(&'static str, &'static str)> = Vec::new();
        permissions.push(
            (
                "read",
                "Allows viewing the extension's settings, domains and all created subdomains.",
            ),
        );
        permissions.push(
            (
                "manage",
                "Allows changing settings and managing DNS domains and subdomains.",
            ),
        );
        PermissionGroup {
            description: "Permissions that control the ability to manage the subdomain manager extension.",
            permissions,
        }
    }
}

} // verus!
