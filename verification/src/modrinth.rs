//! The Modrinth interface: who asks, and where a project is asked for.

use vstd::prelude::*;
use vstd::string::StringExecFns;
use crate::text::joined;

verus! {

/// The base of every address of the Modrinth interface.
pub const MODRINTH_API: &'static str = "https://api.modrinth.com/v2";

/// The repository that stands for the application towards Modrinth.
#[derive(Debug)]
pub struct GithubModrinth {
    /// The owner of the repository.
    pub owner: String,
    /// The name of the repository.
    pub repo: String,
    /// The version of the application.
    pub project_version: String,
    /// The access token, where what is asked for needs one.
    pub access_token: Option<String>,
}

/// A client of the Modrinth interface.
#[derive(Debug)]
pub struct Modrinth {
    access_token: String,
    user_agent: String,
}

/// The name under which an application shows itself to Modrinth.
pub open spec fn user_agent_of(
    owner: Seq<char>,
    repo: Seq<char>,
    project_version: Seq<char>,
    contact_email: Seq<char>,
) -> Seq<char> {
    owner + "/"@ + repo + "/"@ + project_version + " ("@ + contact_email + ")"@
}

/// The address at which a project is asked for.
pub open spec fn project_url_of(project: Seq<char>) -> Seq<char> {
    MODRINTH_API@ + "/project/"@ + project
}

/// The address at which a project is asked for.
pub fn project_url(project: &str) -> (url: String)
    ensures
        url@ == project_url_of(project@),
{
    let mut url = joined(MODRINTH_API, "/project/");
    url.append(project);
    url
}

impl Modrinth {
    /// The name under which this client shows itself.
    pub closed spec fn spec_user_agent(&self) -> Seq<char> {
        self.user_agent@
    }

    /// The access token of this client; empty where it has none.
    pub closed spec fn spec_access_token(&self) -> Seq<char> {
        self.access_token@
    }

    /// A client for the application of a repository, with an address at
    /// which its makers can be reached.
    pub fn init(github: GithubModrinth, contact_email: String) -> (client: Modrinth)
        ensures
            client.spec_user_agent() == user_agent_of(
                github.owner@,
                github.repo@,
                github.project_version@,
                contact_email@,
            ),
            client.spec_access_token() == (match github.access_token {
                Some(token) => token@,
                None => Seq::<char>::empty(),
            }),
    {
        let mut user_agent = joined(github.owner.as_str(), "/");
        user_agent.append(github.repo.as_str());
        user_agent.append("/");
        user_agent.append(github.project_version.as_str());
        user_agent.append(" (");
        user_agent.append(contact_email.as_str());
        user_agent.append(")");
        let access_token = match github.access_token {
            Some(token) => token,
            None => String::new(),
        };
        Modrinth { access_token, user_agent }
    }

    /// The name under which this client shows itself.
    pub fn user_agent(&self) -> (name: &str)
        ensures
            name@ == self.spec_user_agent(),
    {
        self.user_agent.as_str()
    }

    /// The access token of this client; empty where it has none.
    pub fn access_token(&self) -> (token: &str)
        ensures
            token@ == self.spec_access_token(),
    {
        self.access_token.as_str()
    }
}

/// The licence of a project.
#[derive(Debug)]
pub struct License {
    pub id: String,
    pub name: String,
    pub url: Option<String>,
}

/// A place at which a project takes donations.
#[derive(Debug)]
pub struct DonationUrl {
    pub id: String,
    pub platform: String,
    pub url: String,
}

/// A project as Modrinth describes it.
#[derive(Debug)]
pub struct ModrinthProject {
    pub title: String,
    pub description: String,
    pub categories: Vec<String>,
    pub client_side: String,
    pub server_side: String,
    pub body: String,
    pub status: String,
    pub additional_categories: Vec<String>,
    pub issues_url: Option<String>,
    pub source_url: Option<String>,
    pub wiki_url: Option<String>,
    pub discord_url: Option<String>,
    pub donation_urls: Vec<DonationUrl>,
    pub project_type: String,
    pub downloads: i64,
    pub icon_url: String,
    pub published: String,
    pub updated: String,
    pub approved: String,
    pub followers: i64,
    pub license: License,
    pub versions: Vec<String>,
    pub game_versions: Vec<String>,
    pub loaders: Vec<String>,
    pub body_url: Option<String>,
    pub queued: Option<bool>,
    pub moderator_message: Option<String>,
}

} // verus!
