//! The guild (server) records: passive data mirroring the external JSON
//! schema field-for-field, and the feature-name lookup. The caller's I/O
//! layer fills these from endpoint responses.

use crate::text::str_eq;
use crate::user::User;
use vstd::prelude::*;

verus! {

// Placeholder records for nested objects this library does not yet model.
#[derive(Debug)]
pub struct Role;

#[derive(Debug)]
pub struct Emoji;

#[derive(Debug)]
pub struct PartialVoiceState;

#[derive(Debug)]
pub struct Channel;

#[derive(Debug)]
pub struct PartialPresenceUpdate;

#[derive(Debug)]
pub struct StageInstance;

#[derive(Debug)]
pub struct Sticker;

#[derive(Debug)]
pub struct GuildScheduledEvent;

/// A full guild record. Identifiers are snowflakes carried as integers;
/// timestamps are carried as integers.
#[derive(Debug)]
pub struct Guild {
    pub id: u64,
    pub name: String,
    pub icon: Option<String>,
    pub icon_hash: Option<String>,
    pub splash: Option<String>,
    pub discovery_splash: Option<String>,
    pub owner: Option<bool>,
    pub owner_id: u64,
    pub permissions: Option<String>,
    pub region: Option<String>,
    pub afk_channel_id: Option<u64>,
    pub afk_timeout: u64,
    pub widget_enabled: Option<bool>,
    pub widget_channel_id: Option<u64>,
    pub verification_level: VerificationLevel,
    pub default_message_notifications: DefaultMessageNotificationLevel,
    pub explecit_content_filter: ExplicitContentFilterLevel,
    pub roles: Vec<Role>,
    pub emojis: Vec<Emoji>,
    pub features: Vec<GuildFeature>,
    pub mfa_level: MFALevel,
    pub application_id: Option<u64>,
    pub system_channel_id: Option<u64>,
    pub system_channel_flags: u64,
    pub rules_channel_id: Option<u64>,
    pub joined_at: u64,
    pub large: Option<bool>,
    pub unavailable: Option<bool>,
    pub member_count: Option<u64>,
    pub voice_states: Option<Vec<PartialVoiceState>>,
    pub members: Option<Vec<GuildMember>>,
    pub channels: Option<Vec<Channel>>,
    pub threads: Option<Vec<Channel>>,
    pub presences: Option<Vec<PartialPresenceUpdate>>,
    pub max_presences: Option<u64>,
    pub max_members: Option<u64>,
    pub vanity_url_code: Option<String>,
    pub description: Option<String>,
    pub banner: Option<String>,
    pub premium_tier: PremiumTier,
    pub premium_subscription_count: Option<u64>,
    pub preferred_locale: String,
    pub public_updates_channel_id: Option<u64>,
    pub max_video_channel_users: Option<u64>,
    pub approximate_member_count: Option<u64>,
    pub approximate_presence_count: Option<u64>,
    pub welcome_screen: Option<WelcomeScreen>,
    pub nsfw_level: GuildNSFWLevel,
    pub stage_instanes: Option<Vec<StageInstance>>,
    pub stickers: Option<Vec<Sticker>>,
    pub guild_scheduled_evens: Option<Vec<GuildScheduledEvent>>,
    pub premium_progress_bar_enabled: bool,
}

/// The partial guild record the guild-listing endpoint returns.
#[derive(Debug)]
pub struct PartialGuild {
    pub id: u64,
    pub name: String,
    pub icon: Option<String>,
    pub owner: bool,
    pub permissions: u64,
    pub features: Vec<GuildFeature>,
}

/// A member of a guild.
#[derive(Debug)]
pub struct GuildMember {
    pub user: Option<User>,
    pub nick: Option<String>,
    pub avatar: Option<String>,
    pub roles: Vec<u64>,
    pub joined_at: u64,
    pub premium_since: Option<u64>,
    pub deaf: bool,
    pub mute: bool,
    pub pending: Option<bool>,
    pub permissions: Option<String>,
    pub communication_disabled_until: Option<u64>,
}

/// The welcome screen of a community guild.
#[derive(Debug)]
pub struct WelcomeScreen {
    pub description: Option<String>,
    pub welcome_channels: Vec<WelcomeScreenChannel>,
}

/// One channel shown on a welcome screen.
#[derive(Debug)]
pub struct WelcomeScreenChannel {
    pub channel_id: u64,
    pub description: String,
    pub emoji_id: Option<u64>,
    pub emoji_name: Option<String>,
}

#[derive(Debug, Clone, Copy, PartialEq, Eq, Structural)]
pub enum DefaultMessageNotificationLevel {
    AllMessages,
    OnlyMentions,
}

#[derive(Debug, Clone, Copy, PartialEq, Eq, Structural)]
pub enum ExplicitContentFilterLevel {
    Disabled,
    MembersWithoutRoles,
    AllMembers,
}

#[derive(Debug, Clone, Copy, PartialEq, Eq, Structural)]
pub enum MFALevel {
    NoMFA,
    Elevated,
}

#[derive(Debug, Clone, Copy, PartialEq, Eq, Structural)]
pub enum VerificationLevel {
    NoVerification,
    Low,
    Medium,
    High,
    VeryHigh,
}

#[derive(Debug, Clone, Copy, PartialEq, Eq, Structural)]
pub enum GuildNSFWLevel {
    Default,
    Explicit,
    Safe,
    AgeRestricted,
}

#[derive(Debug, Clone, Copy, PartialEq, Eq, Structural)]
pub enum PremiumTier {
    Tier0,
    Tier1,
    Tier2,
    Tier3,
}

/// A feature flag a guild can carry.
#[derive(Debug, Clone, Copy, PartialEq, Eq, Structural)]
pub enum GuildFeature {
    AnimatedIcon,
    Banner,
    Commerce,
    Community,
    Discoverable,
    Featurable,
    InviteSplash,
    MemberVerificationGateEnabled,
    MonetizationEnabled,
    MoreStickers,
    News,
    Partnered,
    PreviewEnabled,
    PrivateThreads,
    RoleIcons,
    SevenDayThreadArchive,
    ThreeDayThreadArchive,
    TicketedEventsEnabled,
    VanityURL,
    Verified,
    VIPRegions,
    WelcomeScreenEnabled,
}

/// The feature a wire name stands for, when it stands for one.
pub open spec fn spec_feature_of(s: Seq<char>) -> Option<GuildFeature> {
    if s == "ANIMATED_ICON"@ {
        Some(GuildFeature::AnimatedIcon)
    } else if s == "BANNER"@ {
        Some(GuildFeature::Banner)
    } else if s == "COMMERCE"@ {
        Some(GuildFeature::Commerce)
    } else if s == "COMMUNITY"@ {
        Some(GuildFeature::Community)
    } else if s == "DISCOVERABLE"@ {
        Some(GuildFeature::Discoverable)
    } else if s == "FEATURABLE"@ {
        Some(GuildFeature::Featurable)
    } else if s == "INVITE_SPLASH"@ {
        Some(GuildFeature::InviteSplash)
    } else if s == "MEMBER_VERIFICATION_GATE_ENABLED"@ {
        Some(GuildFeature::MemberVerificationGateEnabled)
    } else if s == "MONETIZATION_ENABLED"@ {
        Some(GuildFeature::MonetizationEnabled)
    } else if s == "MORE_STICKERS"@ {
        Some(GuildFeature::MoreStickers)
    } else if s == "NEWS"@ {
        Some(GuildFeature::News)
    } else if s == "PARTNERED"@ {
        Some(GuildFeature::Partnered)
    } else if s == "PREVIEW_ENABLED"@ {
        Some(GuildFeature::PreviewEnabled)
    } else if s == "PRIVATE_THREADS"@ {
        Some(GuildFeature::PrivateThreads)
    } else if s == "ROLE_ICONS"@ {
        Some(GuildFeature::RoleIcons)
    } else if s == "SEVEN_DAY_THREAD_ARCHIVE"@ {
        Some(GuildFeature::SevenDayThreadArchive)
    } else if s == "THREE_DAY_THREAD_ARCHIVE"@ {
        Some(GuildFeature::ThreeDayThreadArchive)
    } else if s == "TICKETED_EVENTS_ENABLED"@ {
        Some(GuildFeature::TicketedEventsEnabled)
    } else if s == "VANITY_URL"@ {
        Some(GuildFeature::VanityURL)
    } else if s == "VERIFIED"@ {
        Some(GuildFeature::Verified)
    } else if s == "VIP_REGIONS"@ {
        Some(GuildFeature::VIPRegions)
    } else if s == "WELCOME_SCREEN_ENABLED"@ {
        Some(GuildFeature::WelcomeScreenEnabled)
    } else {
        None
    }
}

impl GuildFeature {
    /// The feature for a wire name, exactly as `spec_feature_of` states.
    /// Names outside the known set are left out by precondition.
    pub fn from_str(s: &str) -> (r: GuildFeature)
        requires
            spec_feature_of(s@) is Some,
        ensures
            Some(r) == spec_feature_of(s@),
    {
        if str_eq(s, "ANIMATED_ICON") {
            GuildFeature::AnimatedIcon
        } else if str_eq(s, "BANNER") {
            GuildFeature::Banner
        } else if str_eq(s, "COMMERCE") {
            GuildFeature::Commerce
        } else if str_eq(s, "COMMUNITY") {
            GuildFeature::Community
        } else if str_eq(s, "DISCOVERABLE") {
            GuildFeature::Discoverable
        } else if str_eq(s, "FEATURABLE") {
            GuildFeature::Featurable
        } else if str_eq(s, "INVITE_SPLASH") {
            GuildFeature::InviteSplash
        } else if str_eq(s, "MEMBER_VERIFICATION_GATE_ENABLED") {
            GuildFeature::MemberVerificationGateEnabled
        } else if str_eq(s, "MONETIZATION_ENABLED") {
            GuildFeature::MonetizationEnabled
        } else if str_eq(s, "MORE_STICKERS") {
            GuildFeature::MoreStickers
        } else if str_eq(s, "NEWS") {
            GuildFeature::News
        } else if str_eq(s, "PARTNERED") {
            GuildFeature::Partnered
        } else if str_eq(s, "PREVIEW_ENABLED") {
            GuildFeature::PreviewEnabled
        } else if str_eq(s, "PRIVATE_THREADS") {
            GuildFeature::PrivateThreads
        } else if str_eq(s, "ROLE_ICONS") {
            GuildFeature::RoleIcons
        } else if str_eq(s, "SEVEN_DAY_THREAD_ARCHIVE") {
            GuildFeature::SevenDayThreadArchive
        } else if str_eq(s, "THREE_DAY_THREAD_ARCHIVE") {
            GuildFeature::ThreeDayThreadArchive
        } else if str_eq(s, "TICKETED_EVENTS_ENABLED") {
            GuildFeature::TicketedEventsEnabled
        } else if str_eq(s, "VANITY_URL") {
            GuildFeature::VanityURL
        } else if str_eq(s, "VERIFIED") {
            GuildFeature::Verified
        } else if str_eq(s, "VIP_REGIONS") {
            GuildFeature::VIPRegions
        } else if str_eq(s, "WELCOME_SCREEN_ENABLED") {
            GuildFeature::WelcomeScreenEnabled
        } else {
            vstd::pervasive::unreached()
        }
    }
}

} // verus!
