//! What the host shows to a user who sets the context server up: how to
//! install it, the settings to start from, and the shape of the settings.
//! All of it is constant for a deployment.

use crate::source::ConfigKind;
use vstd::prelude::*;

verus! {

/// The instructions for a deployment that reads the settings of the
/// context server.
pub const SETTINGS_INSTRUCTIONS: &'static str = r#"# Storyblok MCP Server

This extension connects Zed to a locally running Storyblok MCP Server for headless CMS integration.

## Requirements

- Node.js v18 or later
- Storyblok MCP Server running locally on port 3016
- Storyblok account with Management API access

## Setup

1. Start the Storyblok MCP Server:
   cd path/to/storyblok-mcp-server
   pnpm run dev

2. Add your credentials to Zed settings (Settings > Open Settings):
   {
     "context_servers": {
       "storyblok-mcp-server": {
         "settings": {
           "management_token": "your-storyblok-management-token",
           "space_id": "your-space-id"
         }
       }
     }
   }

3. Enable the context server in Zed Agent Panel settings

## Getting Your Management Token

1. Log in to Storyblok (https://app.storyblok.com)
2. Go to Settings -> Access Tokens
3. Create a Management API token with appropriate permissions

## Available Tools

### Story Management
- storyblok_list_stories: List stories with pagination and filtering
- storyblok_get_story: Get a story by ID or slug
- storyblok_create_story: Create a new story
- storyblok_update_story: Update an existing story
- storyblok_delete_story: Delete a story
- storyblok_publish_story: Publish a story
- storyblok_unpublish_story: Unpublish a story

### Component Management
- storyblok_list_components: List all components
- storyblok_get_component: Get component schema
- storyblok_create_component: Create a component
- storyblok_update_component: Update component schema

### Asset Management
- storyblok_list_assets: List assets
- storyblok_get_asset: Get asset details
- storyblok_delete_asset: Delete an asset

### Other Tools
- storyblok_get_space: Get space info
- storyblok_list_datasources: List datasources
- storyblok_list_folders: List folders
- storyblok_list_tags: List tags

## Troubleshooting

If tools do not appear:
1. Check that your management_token is correctly set in Zed settings
2. Ensure Storyblok MCP Server is running on port 3016
3. Restart Zed and re-enable the context server
"#;

/// The instructions for a deployment that reads the environment file.
pub const ENV_FILE_INSTRUCTIONS: &'static str = r#"# Storyblok MCP Server

This extension connects Zed to a locally running Storyblok MCP Server for headless CMS integration.

## Requirements

- Node.js v18 or later
- Storyblok MCP Server running locally on port 3016
- Storyblok account with Management API access

## Setup

1. Start the Storyblok MCP Server:
   cd path/to/storyblok-mcp-server
   pnpm run dev

2. Put your credentials in a file named .env in the working directory:
   STORYBLOK_MANAGEMENT_TOKEN=your-storyblok-management-token
   STORYBLOK_SPACE_ID=your-space-id

3. Enable the context server in Zed Agent Panel settings

## Getting Your Management Token

1. Log in to Storyblok (https://app.storyblok.com)
2. Go to Settings -> Access Tokens
3. Create a Management API token with appropriate permissions

## Troubleshooting

If tools do not appear:
1. Check that STORYBLOK_MANAGEMENT_TOKEN is correctly set in the .env file
2. Ensure Storyblok MCP Server is running on port 3016
3. Restart Zed and re-enable the context server
"#;

/// The settings to start from, as JSON: both fields, empty.
pub const DEFAULT_SETTINGS: &'static str = r#"{"management_token":"","space_id":""}"#;

/// The shape of the settings, as a JSON schema: an object with the text
/// fields `management_token`, which is required, and `space_id`.
pub const SETTINGS_SCHEMA: &'static str =
    r#"{"properties":{"management_token":{"description":"Your Storyblok Management API Token","type":"string"},"space_id":{"description":"Your Storyblok Space ID (optional)","type":"string"}},"required":["management_token"],"type":"object"}"#;

/// The empty JSON object, for a deployment that has no settings.
pub const EMPTY_OBJECT: &'static str = "{}";

/// What the host is told about the configuration of the context server.
/// The last two fields hold JSON.
#[derive(Clone, Debug, PartialEq, Eq)]
pub struct ConfigurationDescriptor {
    pub installation_instructions: String,
    pub default_settings: String,
    pub settings_schema: String,
}

/// `ConfigurationDescriptor` as mathematical values.
pub ghost struct ConfigurationView {
    pub installation_instructions: Seq<char>,
    pub default_settings: Seq<char>,
    pub settings_schema: Seq<char>,
}

impl View for ConfigurationDescriptor {
    type V = ConfigurationView;

    open spec fn view(&self) -> ConfigurationView {
        ConfigurationView {
            installation_instructions: self.installation_instructions@,
            default_settings: self.default_settings@,
            settings_schema: self.settings_schema@,
        }
    }
}

/// The description for a deployment. It depends on nothing but where the
/// deployment reads its configuration values from.
pub open spec fn configuration_of(kind: ConfigKind) -> ConfigurationView {
    match kind {
        ConfigKind::Settings => ConfigurationView {
            installation_instructions: SETTINGS_INSTRUCTIONS@,
            default_settings: DEFAULT_SETTINGS@,
            settings_schema: SETTINGS_SCHEMA@,
        },
        ConfigKind::EnvFile => ConfigurationView {
            installation_instructions: ENV_FILE_INSTRUCTIONS@,
            default_settings: EMPTY_OBJECT@,
            settings_schema: EMPTY_OBJECT@,
        },
    }
}

/// Describes the configuration of the context server for a deployment.
/// Nothing is computed and nothing can fail.
pub fn describe_configuration(kind: ConfigKind) -> (description: ConfigurationDescriptor)
    ensures
        description@ == configuration_of(kind),
{
    match kind {
        ConfigKind::Settings => ConfigurationDescriptor {
            installation_instructions: SETTINGS_INSTRUCTIONS.to_owned(),
            default_settings: DEFAULT_SETTINGS.to_owned(),
            settings_schema: SETTINGS_SCHEMA.to_owned(),
        },
        ConfigKind::EnvFile => ConfigurationDescriptor {
            installation_instructions: ENV_FILE_INSTRUCTIONS.to_owned(),
            default_settings: EMPTY_OBJECT.to_owned(),
            settings_schema: EMPTY_OBJECT.to_owned(),
        },
    }
}

} // verus!
