//! The builder graph: one type per node of the API's navigation graph.
//!
//! Each node type wraps the one threaded request state and exposes exactly
//! the navigation calls that are valid at that node, so a nonsensical path
//! cannot be written down.  A collection transition appends a fixed
//! segment; a keyed lookup appends the caller's identifier; a query option
//! sets a pair on the same node.  Every method's contract is one
//! `nav_step` on the chain's state, so the chain laws of `crate::builder`
//! hold of every chain these types can form.  Nodes that stand for a
//! fetchable resource implement `Executor`, bound to the record shape
//! their endpoint yields; purely routing nodes do not.

use vstd::prelude::*;

use crate::builder::Builder;
use crate::builder::NavStep;
use crate::builder::PartsView;
use crate::builder::Request;
use crate::builder::nav_step;
use crate::client::Coder;
use crate::client::Executor;
use crate::error::Error;
use crate::error::ErrorSpec;
use crate::models::Environment;
use crate::models::Image;
use crate::models::ImageTag;
use crate::models::OrgMember;
use crate::models::Organization;
use crate::models::Registry;
use crate::models::Service;
use crate::models::User;

verus! {

/// The query text of a flag.
pub open spec fn bool_text(v: bool) -> Seq<char> {
    if v {
        "true"@
    } else {
        "false"@
    }
}

/// The query text of a flag, as a value to attach.
fn bool_name(v: bool) -> (s: &'static str)
    ensures
        s@ == bool_text(v),
{
    if v {
        "true"
    } else {
        "false"
    }
}

/// `/api/orgs`
pub struct OrgsBuilder {
    builder: Builder,
}

impl OrgsBuilder {
    /// The chain's request state, or its poison.
    pub closed spec fn req(&self) -> Result<PartsView, ErrorSpec> {
        self.builder@
    }

    /// Queries an organization by its id.
    pub fn get(self, id: &str) -> (r: OrgBuilder)
        ensures
            r.req() == nav_step(self.req(), NavStep::Path(id@)),
    {
        OrgBuilder { builder: self.builder.join_path(id) }
    }

    /// Queries the available namespaces for organizations.
    pub fn namespaces(self) -> (r: OrgNamespacesBuilder)
        ensures
            r.req() == nav_step(self.req(), NavStep::Path("namespaces"@)),
    {
        OrgNamespacesBuilder { builder: self.builder.join_path("namespaces") }
    }

}

impl Executor for OrgsBuilder {
    type T = Vec<Organization>;

    open spec fn chain(&self) -> Result<PartsView, ErrorSpec> {
        self.req()
    }

    fn finish(self) -> (r: Result<Request, Error>) {
        self.builder.build()
    }
}

/// `/api/orgs/:id`
pub struct OrgBuilder {
    builder: Builder,
}

impl OrgBuilder {
    /// The chain's request state, or its poison.
    pub closed spec fn req(&self) -> Result<PartsView, ErrorSpec> {
        self.builder@
    }

    /// Queries all members in an organization.
    pub fn members(self) -> (r: MembersBuilder)
        ensures
            r.req() == nav_step(self.req(), NavStep::Path("members"@)),
    {
        MembersBuilder { builder: self.builder.join_path("members") }
    }

    /// Queries all environments belonging to the organization.  Must be an
    /// organization manager.
    pub fn envs(self) -> (r: OrgEnvsBuilder)
        ensures
            r.req() == nav_step(self.req(), NavStep::Path("environments"@)),
    {
        OrgEnvsBuilder { builder: self.builder.join_path("environments") }
    }

    /// Queries all images in an organization.
    pub fn images(self) -> (r: OrgImagesBuilder)
        ensures
            r.req() == nav_step(self.req(), NavStep::Path("images"@)),
    {
        OrgImagesBuilder { builder: self.builder.join_path("images") }
    }

    /// Queries all registries in an organization.
    pub fn registries(self) -> (r: OrgRegistriesBuilder)
        ensures
            r.req() == nav_step(self.req(), NavStep::Path("registries"@)),
    {
        OrgRegistriesBuilder { builder: self.builder.join_path("registries") }
    }

    /// Queries all services in an organization.
    pub fn services(self) -> (r: ServicesBuilder)
        ensures
            r.req() == nav_step(self.req(), NavStep::Path("services"@)),
    {
        ServicesBuilder { builder: self.builder.join_path("services") }
    }

}

impl Executor for OrgBuilder {
    type T = Organization;

    open spec fn chain(&self) -> Result<PartsView, ErrorSpec> {
        self.req()
    }

    fn finish(self) -> (r: Result<Request, Error>) {
        self.builder.build()
    }
}

/// `/api/orgs/:id/members`
pub struct MembersBuilder {
    builder: Builder,
}

impl MembersBuilder {
    /// The chain's request state, or its poison.
    pub closed spec fn req(&self) -> Result<PartsView, ErrorSpec> {
        self.builder@
    }

    /// Queries a specific member in an organization by their user id.
    pub fn get(self, user_id: &str) -> (r: MemberBuilder)
        ensures
            r.req() == nav_step(self.req(), NavStep::Path(user_id@)),
    {
        MemberBuilder { builder: self.builder.join_path(user_id) }
    }

}

impl Executor for MembersBuilder {
    type T = Vec<OrgMember>;

    open spec fn chain(&self) -> Result<PartsView, ErrorSpec> {
        self.req()
    }

    fn finish(self) -> (r: Result<Request, Error>) {
        self.builder.build()
    }
}

/// `/api/orgs/:id/members/:id`
pub struct MemberBuilder {
    builder: Builder,
}

impl MemberBuilder {
    /// The chain's request state, or its poison.
    pub closed spec fn req(&self) -> Result<PartsView, ErrorSpec> {
        self.builder@
    }

    /// Queries all environments belonging to an organization member.
    pub fn envs(self) -> (r: MemberEnvsBuilder)
        ensures
            r.req() == nav_step(self.req(), NavStep::Path("environments"@)),
    {
        MemberEnvsBuilder { builder: self.builder.join_path("environments") }
    }

}

impl Executor for MemberBuilder {
    type T = OrgMember;

    open spec fn chain(&self) -> Result<PartsView, ErrorSpec> {
        self.req()
    }

    fn finish(self) -> (r: Result<Request, Error>) {
        self.builder.build()
    }
}

/// `/api/orgs/namespaces`
pub struct OrgNamespacesBuilder {
    builder: Builder,
}

impl OrgNamespacesBuilder {
    /// The chain's request state, or its poison.
    pub closed spec fn req(&self) -> Result<PartsView, ErrorSpec> {
        self.builder@
    }

}

impl Executor for OrgNamespacesBuilder {
    type T = Vec<String>;

    open spec fn chain(&self) -> Result<PartsView, ErrorSpec> {
        self.req()
    }

    fn finish(self) -> (r: Result<Request, Error>) {
        self.builder.build()
    }
}

/// `/api/users`
pub struct UsersBuilder {
    builder: Builder,
}

impl UsersBuilder {
    /// The chain's request state, or its poison.
    pub closed spec fn req(&self) -> Result<PartsView, ErrorSpec> {
        self.builder@
    }

    /// Queries the current user.
    pub fn me(self) -> (r: UserBuilder)
        ensures
            r.req() == nav_step(self.req(), NavStep::Path("me"@)),
    {
        UserBuilder { builder: self.builder.join_path("me") }
    }

    /// Queries a user by their id.
    pub fn get(self, id: &str) -> (r: UserBuilder)
        ensures
            r.req() == nav_step(self.req(), NavStep::Path(id@)),
    {
        UserBuilder { builder: self.builder.join_path(id) }
    }

}

impl Executor for UsersBuilder {
    type T = Vec<User>;

    open spec fn chain(&self) -> Result<PartsView, ErrorSpec> {
        self.req()
    }

    fn finish(self) -> (r: Result<Request, Error>) {
        self.builder.build()
    }
}

/// `/api/users/:id`
pub struct UserBuilder {
    builder: Builder,
}

impl UserBuilder {
    /// The chain's request state, or its poison.
    pub closed spec fn req(&self) -> Result<PartsView, ErrorSpec> {
        self.builder@
    }

}

impl Executor for UserBuilder {
    type T = User;

    open spec fn chain(&self) -> Result<PartsView, ErrorSpec> {
        self.req()
    }

    fn finish(self) -> (r: Result<Request, Error>) {
        self.builder.build()
    }
}

/// `/api/environments`: a routing scaffold, not itself fetchable
pub struct GlobalEnvsBuilder {
    builder: Builder,
}

impl GlobalEnvsBuilder {
    /// The chain's request state, or its poison.
    pub closed spec fn req(&self) -> Result<PartsView, ErrorSpec> {
        self.builder@
    }

    /// Queries an environment by its id.  Must be a site admin or a manager
    /// of the organization the environment belongs to.
    pub fn get(self, id: &str) -> (r: EnvBuilder)
        ensures
            r.req() == nav_step(self.req(), NavStep::Path(id@)),
    {
        EnvBuilder { builder: self.builder.join_path(id) }
    }

}

/// `/api/environments/:id`
pub struct EnvBuilder {
    builder: Builder,
}

impl EnvBuilder {
    /// The chain's request state, or its poison.
    pub closed spec fn req(&self) -> Result<PartsView, ErrorSpec> {
        self.builder@
    }

}

impl Executor for EnvBuilder {
    type T = Environment;

    open spec fn chain(&self) -> Result<PartsView, ErrorSpec> {
        self.req()
    }

    fn finish(self) -> (r: Result<Request, Error>) {
        self.builder.build()
    }
}

/// `/api/orgs/:id/environments`
pub struct OrgEnvsBuilder {
    builder: Builder,
}

impl OrgEnvsBuilder {
    /// The chain's request state, or its poison.
    pub closed spec fn req(&self) -> Result<PartsView, ErrorSpec> {
        self.builder@
    }

}

impl Executor for OrgEnvsBuilder {
    type T = Vec<Environment>;

    open spec fn chain(&self) -> Result<PartsView, ErrorSpec> {
        self.req()
    }

    fn finish(self) -> (r: Result<Request, Error>) {
        self.builder.build()
    }
}

/// `/api/orgs/:id/members/:id/environments`
pub struct MemberEnvsBuilder {
    builder: Builder,
}

impl MemberEnvsBuilder {
    /// The chain's request state, or its poison.
    pub closed spec fn req(&self) -> Result<PartsView, ErrorSpec> {
        self.builder@
    }

}

impl Executor for MemberEnvsBuilder {
    type T = Vec<Environment>;

    open spec fn chain(&self) -> Result<PartsView, ErrorSpec> {
        self.req()
    }

    fn finish(self) -> (r: Result<Request, Error>) {
        self.builder.build()
    }
}

/// `/api/images`: a routing scaffold, not itself fetchable
pub struct GlobalImagesBuilder {
    builder: Builder,
}

impl GlobalImagesBuilder {
    /// The chain's request state, or its poison.
    pub closed spec fn req(&self) -> Result<PartsView, ErrorSpec> {
        self.builder@
    }

    /// Queries an image by its id.
    pub fn get(self, id: &str) -> (r: GlobalImageBuilder)
        ensures
            r.req() == nav_step(self.req(), NavStep::Path(id@)),
    {
        GlobalImageBuilder { builder: self.builder.join_path(id) }
    }

    /// Option to return the `environments` field on the `Image` struct.
    pub fn with_envs(self, v: bool) -> (r: GlobalImagesBuilder)
        ensures
            r.req() == nav_step(self.req(), NavStep::Query("envs"@, bool_text(v))),
    {
        GlobalImagesBuilder { builder: self.builder.set_query("envs", bool_name(v)) }
    }

    /// Option to return the `user_ids` field on the `Image` struct.
    pub fn with_user_ids(self, v: bool) -> (r: GlobalImagesBuilder)
        ensures
            r.req() == nav_step(self.req(), NavStep::Query("user_ids"@, bool_text(v))),
    {
        GlobalImagesBuilder { builder: self.builder.set_query("user_ids", bool_name(v)) }
    }

}

/// `/api/images/:id`
pub struct GlobalImageBuilder {
    builder: Builder,
}

impl GlobalImageBuilder {
    /// The chain's request state, or its poison.
    pub closed spec fn req(&self) -> Result<PartsView, ErrorSpec> {
        self.builder@
    }

    /// Queries all image tags belonging to an image.
    pub fn tags(self) -> (r: ImageTagsBuilder)
        ensures
            r.req() == nav_step(self.req(), NavStep::Path("tags"@)),
    {
        ImageTagsBuilder { builder: self.builder.join_path("tags") }
    }

    /// Option to return the `environments` field on the `Image` struct.
    pub fn with_envs(self, v: bool) -> (r: GlobalImageBuilder)
        ensures
            r.req() == nav_step(self.req(), NavStep::Query("envs"@, bool_text(v))),
    {
        GlobalImageBuilder { builder: self.builder.set_query("envs", bool_name(v)) }
    }

    /// Option to return the `user_ids` field on the `Image` struct.
    pub fn with_user_ids(self, v: bool) -> (r: GlobalImageBuilder)
        ensures
            r.req() == nav_step(self.req(), NavStep::Query("user_ids"@, bool_text(v))),
    {
        GlobalImageBuilder { builder: self.builder.set_query("user_ids", bool_name(v)) }
    }

}

impl Executor for GlobalImageBuilder {
    type T = Image;

    open spec fn chain(&self) -> Result<PartsView, ErrorSpec> {
        self.req()
    }

    fn finish(self) -> (r: Result<Request, Error>) {
        self.builder.build()
    }
}

/// `/api/orgs/:id/images`
pub struct OrgImagesBuilder {
    builder: Builder,
}

impl OrgImagesBuilder {
    /// The chain's request state, or its poison.
    pub closed spec fn req(&self) -> Result<PartsView, ErrorSpec> {
        self.builder@
    }

    /// Option to return the `environments` field on the `Image` struct.
    pub fn with_envs(self, v: bool) -> (r: OrgImagesBuilder)
        ensures
            r.req() == nav_step(self.req(), NavStep::Query("envs"@, bool_text(v))),
    {
        OrgImagesBuilder { builder: self.builder.set_query("envs", bool_name(v)) }
    }

    /// Option to return the `user_ids` field on the `Image` struct.
    pub fn with_user_ids(self, v: bool) -> (r: OrgImagesBuilder)
        ensures
            r.req() == nav_step(self.req(), NavStep::Query("user_ids"@, bool_text(v))),
    {
        OrgImagesBuilder { builder: self.builder.set_query("user_ids", bool_name(v)) }
    }

}

impl Executor for OrgImagesBuilder {
    type T = Vec<Image>;

    open spec fn chain(&self) -> Result<PartsView, ErrorSpec> {
        self.req()
    }

    fn finish(self) -> (r: Result<Request, Error>) {
        self.builder.build()
    }
}

/// `/api/images/:id/tags`
pub struct ImageTagsBuilder {
    builder: Builder,
}

impl ImageTagsBuilder {
    /// The chain's request state, or its poison.
    pub closed spec fn req(&self) -> Result<PartsView, ErrorSpec> {
        self.builder@
    }

    /// Queries an image tag for an image by its tag.
    pub fn get(self, tag: &str) -> (r: ImageTagBuilder)
        ensures
            r.req() == nav_step(self.req(), NavStep::Path(tag@)),
    {
        ImageTagBuilder { builder: self.builder.join_path(tag) }
    }

}

impl Executor for ImageTagsBuilder {
    type T = Vec<ImageTag>;

    open spec fn chain(&self) -> Result<PartsView, ErrorSpec> {
        self.req()
    }

    fn finish(self) -> (r: Result<Request, Error>) {
        self.builder.build()
    }
}

/// `/api/images/:id/tags/:tag`
pub struct ImageTagBuilder {
    builder: Builder,
}

impl ImageTagBuilder {
    /// The chain's request state, or its poison.
    pub closed spec fn req(&self) -> Result<PartsView, ErrorSpec> {
        self.builder@
    }

}

impl Executor for ImageTagBuilder {
    type T = ImageTag;

    open spec fn chain(&self) -> Result<PartsView, ErrorSpec> {
        self.req()
    }

    fn finish(self) -> (r: Result<Request, Error>) {
        self.builder.build()
    }
}

/// `/api/registries`
pub struct GlobalRegistriesBuilder {
    builder: Builder,
}

impl GlobalRegistriesBuilder {
    /// The chain's request state, or its poison.
    pub closed spec fn req(&self) -> Result<PartsView, ErrorSpec> {
        self.builder@
    }

    /// Queries a registry by its id.
    pub fn get(self, id: &str) -> (r: GlobalRegistryBuilder)
        ensures
            r.req() == nav_step(self.req(), NavStep::Path(id@)),
    {
        GlobalRegistryBuilder { builder: self.builder.join_path(id) }
    }

}

impl Executor for GlobalRegistriesBuilder {
    type T = Vec<Registry>;

    open spec fn chain(&self) -> Result<PartsView, ErrorSpec> {
        self.req()
    }

    fn finish(self) -> (r: Result<Request, Error>) {
        self.builder.build()
    }
}

/// `/api/registries/:id`
pub struct GlobalRegistryBuilder {
    builder: Builder,
}

impl GlobalRegistryBuilder {
    /// The chain's request state, or its poison.
    pub closed spec fn req(&self) -> Result<PartsView, ErrorSpec> {
        self.builder@
    }

}

impl Executor for GlobalRegistryBuilder {
    type T = Registry;

    open spec fn chain(&self) -> Result<PartsView, ErrorSpec> {
        self.req()
    }

    fn finish(self) -> (r: Result<Request, Error>) {
        self.builder.build()
    }
}

/// `/api/orgs/:id/registries`
pub struct OrgRegistriesBuilder {
    builder: Builder,
}

impl OrgRegistriesBuilder {
    /// The chain's request state, or its poison.
    pub closed spec fn req(&self) -> Result<PartsView, ErrorSpec> {
        self.builder@
    }

}

impl Executor for OrgRegistriesBuilder {
    type T = Vec<Registry>;

    open spec fn chain(&self) -> Result<PartsView, ErrorSpec> {
        self.req()
    }

    fn finish(self) -> (r: Result<Request, Error>) {
        self.builder.build()
    }
}

/// `/api/orgs/:id/services`
pub struct ServicesBuilder {
    builder: Builder,
}

impl ServicesBuilder {
    /// The chain's request state, or its poison.
    pub closed spec fn req(&self) -> Result<PartsView, ErrorSpec> {
        self.builder@
    }

    /// Queries a specific service in an organization by its id.
    pub fn get(self, id: &str) -> (r: ServiceBuilder)
        ensures
            r.req() == nav_step(self.req(), NavStep::Path(id@)),
    {
        ServiceBuilder { builder: self.builder.join_path(id) }
    }

}

impl Executor for ServicesBuilder {
    type T = Vec<Service>;

    open spec fn chain(&self) -> Result<PartsView, ErrorSpec> {
        self.req()
    }

    fn finish(self) -> (r: Result<Request, Error>) {
        self.builder.build()
    }
}

/// `/api/orgs/:id/services/:id`
pub struct ServiceBuilder {
    builder: Builder,
}

impl ServiceBuilder {
    /// The chain's request state, or its poison.
    pub closed spec fn req(&self) -> Result<PartsView, ErrorSpec> {
        self.builder@
    }

}

impl Executor for ServiceBuilder {
    type T = Service;

    open spec fn chain(&self) -> Result<PartsView, ErrorSpec> {
        self.req()
    }

    fn finish(self) -> (r: Result<Request, Error>) {
        self.builder.build()
    }
}

impl Coder {

    /// Begins an organization query.
    pub fn orgs(&self) -> (r: OrgsBuilder)
        ensures
            r.req() == nav_step(Ok(self.root_parts()), NavStep::Path("orgs"@)),
    {
        OrgsBuilder { builder: self.new_request().join_path("orgs") }
    }

    /// Begins a user query.
    pub fn users(&self) -> (r: UsersBuilder)
        ensures
            r.req() == nav_step(Ok(self.root_parts()), NavStep::Path("users"@)),
    {
        UsersBuilder { builder: self.new_request().join_path("users") }
    }

    /// Begins an environments query.
    pub fn envs(&self) -> (r: GlobalEnvsBuilder)
        ensures
            r.req() == nav_step(Ok(self.root_parts()), NavStep::Path("environments"@)),
    {
        GlobalEnvsBuilder { builder: self.new_request().join_path("environments") }
    }

    /// Begins a global image query.
    pub fn images(&self) -> (r: GlobalImagesBuilder)
        ensures
            r.req() == nav_step(Ok(self.root_parts()), NavStep::Path("images"@)),
    {
        GlobalImagesBuilder { builder: self.new_request().join_path("images") }
    }

    /// Begins a global registry query.
    pub fn registries(&self) -> (r: GlobalRegistriesBuilder)
        ensures
            r.req() == nav_step(Ok(self.root_parts()), NavStep::Path("registries"@)),
    {
        GlobalRegistriesBuilder { builder: self.new_request().join_path("registries") }
    }

}

} // verus!
