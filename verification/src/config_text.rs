//! The text of the YAML configuration template that the gateway writes out
//! for the user to fill in.

use vstd::prelude::*;

verus! {

/// The full template text: a comment header, then one line for each field
/// of the configuration record, each with a short description.
pub open spec fn spec_config_file_text() -> Seq<char> {
    "# Edit this configuration file accroding to your needs to run the executable.\n# The configuration file is in YAML format.\n"@
        + "\n\n"@ + "# Choose the database you want to connect to"@ + " \n"@
        + "database: \"\" # "@ + "Current Supported Databases are : Mongodb"@ + "\n"@
        + "uri: \"\" "@ + "# Add your database connection string here "@ + " \n\n"@
        + "auth_header: \"\""@ + " # "@
        + "Add your auth header here if you want to use it. None by default."@ + " \n\n"@
        + "api_key: \"\" "@ + "# Add your api key here"@ + " \n"@
}

/// Builds the configuration template.
pub fn get_config_file_text() -> (text: String)
    ensures
        text@ == spec_config_file_text(),
{
    let mut text: String = String::from_str(
        "# Edit this configuration file accroding to your needs to run the executable.\n# The configuration file is in YAML format.\n",
    );
    text.append("\n\n");
    text.append("# Choose the database you want to connect to");
    text.append(" \n");
    text.append("database: \"\" # ");
    text.append("Current Supported Databases are : Mongodb");
    text.append("\n");
    text.append("uri: \"\" ");
    text.append("# Add your database connection string here ");
    text.append(" \n\n");
    text.append("auth_header: \"\"");
    text.append(" # ");
    text.append("Add your auth header here if you want to use it. None by default.");
    text.append(" \n\n");
    text.append("api_key: \"\" ");
    text.append("# Add your api key here");
    text.append(" \n");
    text
}

} // verus!
