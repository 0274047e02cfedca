use beep::commands::hooks::command_error_embed;
use beep::util::embed_store::{colour_from_rgb, EmbedStore, TicketAuthor, TicketEmbed, RED};

#[test]
fn colours() {
    assert_eq!(colour_from_rgb(73, 248, 22), 0x49F816);
    assert_eq!(colour_from_rgb(255, 0, 0), 0xFF0000);
    assert_eq!(colour_from_rgb(0, 0, 255), 0x0000FF);
    assert_eq!(RED, 0xE74C3C);
}

#[test]
fn failure_embed() {
    let e = EmbedStore::ticket_failure();
    assert_eq!(e.title, "Error");
    assert_eq!(e.description, "Error creating a ticket for you!");
    assert_eq!(e.colour, 0xE74C3C);
    assert!(e.author.is_none() && e.fields.is_empty());
    let e = EmbedStore::ticket(TicketEmbed::Failure);
    assert_eq!(e.title, "Error");
}

#[test]
fn success_embed() {
    let e = EmbedStore::ticket_success(123);
    assert_eq!(e.title, "New Ticket");
    assert_eq!(e.description, "Please go to <#123>");
    assert_eq!(e.colour, 0x49F816);
    let e = EmbedStore::ticket(TicketEmbed::Success(9));
    assert_eq!(e.description, "Please go to <#9>");
}

#[test]
fn description_embed() {
    let author = TicketAuthor { name: "ann".to_string(), avatar_url: Some("https://a/b.png".to_string()) };
    let e = EmbedStore::ticket(TicketEmbed::Description {
        author,
        title: "help".to_string(),
        description: "it broke".to_string(),
    });
    let a = e.author.unwrap();
    assert_eq!(a.name, "ann");
    assert_eq!(a.icon_url.as_deref(), Some("https://a/b.png"));
    assert_eq!(e.title, "help");
    assert_eq!(e.description, "it broke");
    assert_eq!(e.colour, 0x49F816);
    let author = TicketAuthor { name: "bo".to_string(), avatar_url: None };
    let e = EmbedStore::ticket(TicketEmbed::Description { author, title: String::new(), description: String::new() });
    assert!(e.author.unwrap().icon_url.is_none());
}

#[test]
fn command_error_report() {
    let e = command_error_embed("roll", "Parse");
    assert_eq!(e.title, "Aw Snap!");
    assert_eq!(e.description, "Looks like the bot encountered an error! \n");
    assert_eq!(e.colour, 0xff69b4);
    assert_eq!(e.fields.len(), 2);
    assert_eq!((e.fields[0].name.as_str(), e.fields[0].value.as_str(), e.fields[0].inline), ("Command Name", "roll", false));
    assert_eq!((e.fields[1].name.as_str(), e.fields[1].value.as_str(), e.fields[1].inline), ("Error", "```Parse \n```", false));
}
