//! Campaign lifecycle: the parent container of tasks.
//!
//! A campaign is created in `Draft`, is editable only there, is published
//! by its creator, turns `Active` when its first task attaches, and can be
//! archived only by its creator and only while no task is still live.
//! `Archived` is terminal.

use vstd::prelude::*;

use crate::bytes_of;
use crate::is_valid_identifier;
use crate::validate_identifier;
use crate::AccountId;

verus! {

pub const MAX_TITLE_LEN: usize = 100;

pub const MAX_DESCRIPTION_LEN: usize = 500;

pub const MAX_METADATA_URI_LEN: usize = 200;

pub const MAX_CATEGORY_LEN: usize = 50;

pub const MAX_CAMPAIGN_ID_LEN: usize = 64;

#[derive(Clone, Copy, PartialEq, Eq, Structural, Debug)]
pub enum CampaignState {
    Draft,
    Published,
    Active,
    Completed,
    Archived,
}

#[derive(Clone, Copy, PartialEq, Eq, Structural, Debug)]
pub enum CampaignError {
    InvalidCampaignId,
    InvalidTitle,
    InvalidDescription,
    InvalidMetadataUri,
    InvalidCategory,
    NotEditable,
    CannotAddTasks,
    UnauthorizedCreator,
    InvalidState,
    HasActiveTasks,
}

pub open spec fn valid_campaign_title_bytes(s: Seq<u8>) -> bool {
    1 <= s.len() <= MAX_TITLE_LEN
}

pub open spec fn valid_description_bytes(s: Seq<u8>) -> bool {
    s.len() <= MAX_DESCRIPTION_LEN
}

pub open spec fn valid_metadata_uri_bytes(s: Seq<u8>) -> bool {
    1 <= s.len() <= MAX_METADATA_URI_LEN
}

pub open spec fn valid_category_bytes(s: Seq<u8>) -> bool {
    1 <= s.len() <= MAX_CATEGORY_LEN
}

/// The campaign lifecycle relation: `Draft -> Published -> Active ->
/// Completed`, with `Archived` reachable from every other state and
/// terminal.
pub open spec fn spec_campaign_can_transition(from: CampaignState, to: CampaignState) -> bool {
    match (from, to) {
        (CampaignState::Draft, CampaignState::Published) => true,
        (CampaignState::Published, CampaignState::Active) => true,
        (CampaignState::Active, CampaignState::Completed) => true,
        (CampaignState::Archived, _) => false,
        (_, CampaignState::Archived) => true,
        _ => false,
    }
}

/// `Archived` has no outgoing transition.
pub proof fn lemma_archived_terminal(to: CampaignState)
    ensures
        !spec_campaign_can_transition(CampaignState::Archived, to),
{
}

/// A fundraising campaign, identified by `(creator, campaign_id)`.
#[derive(Debug)]
pub struct Campaign {
    pub campaign_id: String,
    pub creator: AccountId,
    pub title: String,
    pub description: String,
    pub metadata_uri: String,
    pub category: String,
    pub state: CampaignState,
    pub tasks_count: u32,
    pub created_at: i64,
    pub updated_at: i64,
    pub published_at: Option<i64>,
}

/// Editable only while still a draft.
pub open spec fn spec_is_editable(c: Campaign) -> bool {
    c.state == CampaignState::Draft
}

/// Tasks attach while the campaign is in `Draft`, `Published` or `Active`.
pub open spec fn spec_can_add_tasks(c: Campaign) -> bool {
    c.state == CampaignState::Draft || c.state == CampaignState::Published || c.state
        == CampaignState::Active
}

impl Campaign {
    /// May the campaign's fields still be edited?
    pub fn is_editable(&self) -> (r: bool)
        ensures
            r == spec_is_editable(*self),
    {
        self.state == CampaignState::Draft
    }

    /// May a task be attached in the current state?
    pub fn can_add_tasks(&self) -> (r: bool)
        ensures
            r == spec_can_add_tasks(*self),
    {
        match self.state {
            CampaignState::Draft => true,
            CampaignState::Published => true,
            CampaignState::Active => true,
            _ => false,
        }
    }

    /// A title is 1 to 100 bytes.
    pub fn validate_title(title: &str) -> (r: bool)
        ensures
            r == valid_campaign_title_bytes(bytes_of(title@)),
    {
        let n = title.as_bytes().len();
        n >= 1 && n <= MAX_TITLE_LEN
    }

    /// A description is at most 500 bytes; it may be empty, the full text
    /// lives behind the metadata URI.
    pub fn validate_description(description: &str) -> (r: bool)
        ensures
            r == valid_description_bytes(bytes_of(description@)),
    {
        description.as_bytes().len() <= MAX_DESCRIPTION_LEN
    }

    /// A metadata URI is 1 to 200 bytes.
    pub fn validate_metadata_uri(uri: &str) -> (r: bool)
        ensures
            r == valid_metadata_uri_bytes(bytes_of(uri@)),
    {
        let n = uri.as_bytes().len();
        n >= 1 && n <= MAX_METADATA_URI_LEN
    }

    /// A category is 1 to 50 bytes.
    pub fn validate_category(category: &str) -> (r: bool)
        ensures
            r == valid_category_bytes(bytes_of(category@)),
    {
        let n = category.as_bytes().len();
        n >= 1 && n <= MAX_CATEGORY_LEN
    }

    /// A campaign identifier is 1 to 64 bytes of letters, digits, dash and
    /// underscore.
    pub fn validate_campaign_id(id: &str) -> (r: bool)
        ensures
            r == is_valid_identifier(bytes_of(id@), MAX_CAMPAIGN_ID_LEN as int),
    {
        validate_identifier(id, MAX_CAMPAIGN_ID_LEN)
    }
}

/// All creator-chosen fields of a campaign pass validation.
pub open spec fn spec_campaign_inputs_valid(
    campaign_id: Seq<char>,
    title: Seq<char>,
    description: Seq<char>,
    metadata_uri: Seq<char>,
    category: Seq<char>,
) -> bool {
    &&& is_valid_identifier(bytes_of(campaign_id), MAX_CAMPAIGN_ID_LEN as int)
    &&& valid_campaign_title_bytes(bytes_of(title))
    &&& valid_description_bytes(bytes_of(description))
    &&& valid_metadata_uri_bytes(bytes_of(metadata_uri))
    &&& valid_category_bytes(bytes_of(category))
}

/// Create a campaign in `Draft` after validating every field.
pub fn create_campaign(
    creator: AccountId,
    campaign_id: String,
    title: String,
    description: String,
    metadata_uri: String,
    category: String,
    now: i64,
) -> (r: Result<Campaign, CampaignError>)
    ensures
        r is Ok <==> spec_campaign_inputs_valid(
            campaign_id@,
            title@,
            description@,
            metadata_uri@,
            category@,
        ),
        r == Err::<Campaign, CampaignError>(CampaignError::InvalidCampaignId)
            <==> !is_valid_identifier(bytes_of(campaign_id@), MAX_CAMPAIGN_ID_LEN as int),
        r == Err::<Campaign, CampaignError>(CampaignError::InvalidTitle) <==> is_valid_identifier(
            bytes_of(campaign_id@),
            MAX_CAMPAIGN_ID_LEN as int,
        ) && !valid_campaign_title_bytes(bytes_of(title@)),
        r == Err::<Campaign, CampaignError>(CampaignError::InvalidDescription)
            <==> is_valid_identifier(bytes_of(campaign_id@), MAX_CAMPAIGN_ID_LEN as int)
            && valid_campaign_title_bytes(bytes_of(title@)) && !valid_description_bytes(
            bytes_of(description@),
        ),
        r == Err::<Campaign, CampaignError>(CampaignError::InvalidMetadataUri)
            <==> is_valid_identifier(bytes_of(campaign_id@), MAX_CAMPAIGN_ID_LEN as int)
            && valid_campaign_title_bytes(bytes_of(title@)) && valid_description_bytes(
            bytes_of(description@),
        ) && !valid_metadata_uri_bytes(bytes_of(metadata_uri@)),
        r == Err::<Campaign, CampaignError>(CampaignError::InvalidCategory)
            <==> is_valid_identifier(bytes_of(campaign_id@), MAX_CAMPAIGN_ID_LEN as int)
            && valid_campaign_title_bytes(bytes_of(title@)) && valid_description_bytes(
            bytes_of(description@),
        ) && valid_metadata_uri_bytes(bytes_of(metadata_uri@)) && !valid_category_bytes(
            bytes_of(category@),
        ),
        r is Ok ==> r->Ok_0 == (Campaign {
            campaign_id: campaign_id,
            creator: creator,
            title: title,
            description: description,
            metadata_uri: metadata_uri,
            category: category,
            state: CampaignState::Draft,
            tasks_count: 0,
            created_at: now,
            updated_at: now,
            published_at: None,
        }),
{
    if !Campaign::validate_campaign_id(campaign_id.as_str()) {
        return Err(CampaignError::InvalidCampaignId);
    }
    if !Campaign::validate_title(title.as_str()) {
        return Err(CampaignError::InvalidTitle);
    }
    if !Campaign::validate_description(description.as_str()) {
        return Err(CampaignError::InvalidDescription);
    }
    if !Campaign::validate_metadata_uri(metadata_uri.as_str()) {
        return Err(CampaignError::InvalidMetadataUri);
    }
    if !Campaign::validate_category(category.as_str()) {
        return Err(CampaignError::InvalidCategory);
    }
    Ok(
        Campaign {
            campaign_id,
            creator,
            title,
            description,
            metadata_uri,
            category,
            state: CampaignState::Draft,
            tasks_count: 0,
            created_at: now,
            updated_at: now,
            published_at: None,
        },
    )
}

/// The given optional field, if provided and valid, else the current value.
pub open spec fn spec_updated_field(current: Seq<char>, provided: Option<String>) -> Seq<char> {
    if provided is Some {
        provided->0@
    } else {
        current
    }
}

/// Update the creator-chosen fields of a draft campaign.  Each provided
/// field is validated; the update is all-or-nothing.
pub fn update_campaign(
    campaign: &mut Campaign,
    caller: AccountId,
    title: Option<String>,
    description: Option<String>,
    metadata_uri: Option<String>,
    category: Option<String>,
    now: i64,
) -> (r: Result<(), CampaignError>)
    ensures
        r == Err::<(), CampaignError>(CampaignError::UnauthorizedCreator) <==> caller != old(
            campaign,
        ).creator,
        r == Err::<(), CampaignError>(CampaignError::NotEditable) <==> caller == old(
            campaign,
        ).creator && !spec_is_editable(*old(campaign)),
        r == Err::<(), CampaignError>(CampaignError::InvalidTitle) <==> caller == old(
            campaign,
        ).creator && spec_is_editable(*old(campaign)) && title is Some
            && !valid_campaign_title_bytes(bytes_of(title->0@)),
        r == Err::<(), CampaignError>(CampaignError::InvalidDescription) <==> caller == old(
            campaign,
        ).creator && spec_is_editable(*old(campaign)) && (title is Some
            ==> valid_campaign_title_bytes(bytes_of(title->0@))) && description is Some
            && !valid_description_bytes(bytes_of(description->0@)),
        r == Err::<(), CampaignError>(CampaignError::InvalidMetadataUri) <==> caller == old(
            campaign,
        ).creator && spec_is_editable(*old(campaign)) && (title is Some
            ==> valid_campaign_title_bytes(bytes_of(title->0@))) && (description is Some
            ==> valid_description_bytes(bytes_of(description->0@))) && metadata_uri is Some
            && !valid_metadata_uri_bytes(bytes_of(metadata_uri->0@)),
        r == Err::<(), CampaignError>(CampaignError::InvalidCategory) <==> caller == old(
            campaign,
        ).creator && spec_is_editable(*old(campaign)) && (title is Some
            ==> valid_campaign_title_bytes(bytes_of(title->0@))) && (description is Some
            ==> valid_description_bytes(bytes_of(description->0@))) && (metadata_uri is Some
            ==> valid_metadata_uri_bytes(bytes_of(metadata_uri->0@))) && category is Some
            && !valid_category_bytes(bytes_of(category->0@)),
        r is Ok <==> caller == old(campaign).creator && spec_is_editable(*old(campaign)) && (title
            is Some ==> valid_campaign_title_bytes(bytes_of(title->0@))) && (description is Some
            ==> valid_description_bytes(bytes_of(description->0@))) && (metadata_uri is Some
            ==> valid_metadata_uri_bytes(bytes_of(metadata_uri->0@))) && (category is Some
            ==> valid_category_bytes(bytes_of(category->0@))),
        r is Err ==> *final(campaign) == *old(campaign),
        r is Ok ==> final(campaign).title@ == spec_updated_field(old(campaign).title@, title),
        r is Ok ==> final(campaign).description@ == spec_updated_field(
            old(campaign).description@,
            description,
        ),
        r is Ok ==> final(campaign).metadata_uri@ == spec_updated_field(
            old(campaign).metadata_uri@,
            metadata_uri,
        ),
        r is Ok ==> final(campaign).category@ == spec_updated_field(
            old(campaign).category@,
            category,
        ),
        r is Ok ==> final(campaign).updated_at == now,
        final(campaign).campaign_id == old(campaign).campaign_id,
        final(campaign).creator == old(campaign).creator,
        final(campaign).state == old(campaign).state,
        final(campaign).tasks_count == old(campaign).tasks_count,
        final(campaign).created_at == old(campaign).created_at,
        final(campaign).published_at == old(campaign).published_at,
{
    if caller != campaign.creator {
        return Err(CampaignError::UnauthorizedCreator);
    }
    if !campaign.is_editable() {
        return Err(CampaignError::NotEditable);
    }
    match &title {
        Some(t) => {
            if !Campaign::validate_title(t.as_str()) {
                return Err(CampaignError::InvalidTitle);
            }
        },
        None => {},
    }
    match &description {
        Some(d) => {
            if !Campaign::validate_description(d.as_str()) {
                return Err(CampaignError::InvalidDescription);
            }
        },
        None => {},
    }
    match &metadata_uri {
        Some(u) => {
            if !Campaign::validate_metadata_uri(u.as_str()) {
                return Err(CampaignError::InvalidMetadataUri);
            }
        },
        None => {},
    }
    match &category {
        Some(c) => {
            if !Campaign::validate_category(c.as_str()) {
                return Err(CampaignError::InvalidCategory);
            }
        },
        None => {},
    }
    if let Some(t) = title {
        campaign.title = t;
    }
    if let Some(d) = description {
        campaign.description = d;
    }
    if let Some(u) = metadata_uri {
        campaign.metadata_uri = u;
    }
    if let Some(c) = category {
        campaign.category = c;
    }
    campaign.updated_at = now;
    Ok(())
}

/// Publish a draft campaign: `Draft -> Published`, creator only.
pub fn publish_campaign(campaign: &mut Campaign, caller: AccountId, now: i64) -> (r: Result<
    (),
    CampaignError,
>)
    ensures
        r == Err::<(), CampaignError>(CampaignError::UnauthorizedCreator) <==> caller != old(
            campaign,
        ).creator,
        r == Err::<(), CampaignError>(CampaignError::InvalidState) <==> caller == old(
            campaign,
        ).creator && old(campaign).state != CampaignState::Draft,
        r is Ok <==> caller == old(campaign).creator && old(campaign).state == CampaignState::Draft,
        r is Err ==> *final(campaign) == *old(campaign),
        r is Ok ==> *final(campaign) == (Campaign {
            state: CampaignState::Published,
            published_at: Some(now),
            updated_at: now,
            ..*old(campaign)
        }),
{
    if caller != campaign.creator {
        return Err(CampaignError::UnauthorizedCreator);
    }
    if !(campaign.state == CampaignState::Draft) {
        return Err(CampaignError::InvalidState);
    }
    campaign.state = CampaignState::Published;
    campaign.published_at = Some(now);
    campaign.updated_at = now;
    Ok(())
}

/// Complete an active campaign once every owned task has been paid out or
/// refunded (`active_tasks` is the caller's count of tasks not yet
/// terminal).
pub fn complete_campaign(campaign: &mut Campaign, active_tasks: u32, now: i64) -> (r: Result<
    (),
    CampaignError,
>)
    ensures
        r == Err::<(), CampaignError>(CampaignError::InvalidState) <==> old(campaign).state
            != CampaignState::Active,
        r == Err::<(), CampaignError>(CampaignError::HasActiveTasks) <==> old(campaign).state
            == CampaignState::Active && active_tasks > 0,
        r is Ok <==> old(campaign).state == CampaignState::Active && active_tasks == 0,
        r is Err ==> *final(campaign) == *old(campaign),
        r is Ok ==> *final(campaign) == (Campaign {
            state: CampaignState::Completed,
            updated_at: now,
            ..*old(campaign)
        }),
{
    if !(campaign.state == CampaignState::Active) {
        return Err(CampaignError::InvalidState);
    }
    if active_tasks > 0 {
        return Err(CampaignError::HasActiveTasks);
    }
    campaign.state = CampaignState::Completed;
    campaign.updated_at = now;
    Ok(())
}

/// Archive a campaign: creator only, never twice, and only while no
/// attached task is still live (`active_tasks` is the caller's count of
/// owned tasks not yet paid out or refunded).
pub fn archive_campaign(
    campaign: &mut Campaign,
    caller: AccountId,
    active_tasks: u32,
    now: i64,
) -> (r: Result<(), CampaignError>)
    ensures
        r == Err::<(), CampaignError>(CampaignError::UnauthorizedCreator) <==> caller != old(
            campaign,
        ).creator,
        r == Err::<(), CampaignError>(CampaignError::InvalidState) <==> caller == old(
            campaign,
        ).creator && old(campaign).state == CampaignState::Archived,
        r == Err::<(), CampaignError>(CampaignError::HasActiveTasks) <==> caller == old(
            campaign,
        ).creator && old(campaign).state != CampaignState::Archived && active_tasks > 0,
        r is Ok <==> caller == old(campaign).creator && old(campaign).state
            != CampaignState::Archived && active_tasks == 0,
        r is Err ==> *final(campaign) == *old(campaign),
        r is Ok ==> *final(campaign) == (Campaign {
            state: CampaignState::Archived,
            updated_at: now,
            ..*old(campaign)
        }),
{
    if caller != campaign.creator {
        return Err(CampaignError::UnauthorizedCreator);
    }
    if campaign.state == CampaignState::Archived {
        return Err(CampaignError::InvalidState);
    }
    if active_tasks > 0 {
        return Err(CampaignError::HasActiveTasks);
    }
    campaign.state = CampaignState::Archived;
    campaign.updated_at = now;
    Ok(())
}

/// Attach one task: count it with checked addition and auto-activate a
/// published campaign.  Overflow of the task counter is fatal, so the
/// caller keeps it below `u32::MAX`.
pub fn increment_task_count(campaign: &mut Campaign, now: i64) -> (r: Result<(), CampaignError>)
    requires
        old(campaign).tasks_count < u32::MAX,
    ensures
        r == Err::<(), CampaignError>(CampaignError::CannotAddTasks) <==> !spec_can_add_tasks(
            *old(campaign),
        ),
        r is Ok <==> spec_can_add_tasks(*old(campaign)),
        r is Err ==> *final(campaign) == *old(campaign),
        r is Ok ==> *final(campaign) == (Campaign {
            tasks_count: (old(campaign).tasks_count + 1) as u32,
            state: if old(campaign).state == CampaignState::Published {
                CampaignState::Active
            } else {
                old(campaign).state
            },
            updated_at: now,
            ..*old(campaign)
        }),
        final(campaign).tasks_count >= old(campaign).tasks_count,
{
    if !campaign.can_add_tasks() {
        return Err(CampaignError::CannotAddTasks);
    }
    campaign.tasks_count = campaign.tasks_count + 1;
    campaign.updated_at = now;
    if campaign.state == CampaignState::Published {
        campaign.state = CampaignState::Active;
    }
    Ok(())
}

} // verus!
