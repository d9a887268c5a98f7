use vstd::prelude::*;

verus! {

/// A labelled external link shown under the published activity.
pub struct Button {
    pub label: String,
    pub url: String,
}

/// The activity record published to the presence service.
pub struct Payload {
    pub state: String,
    pub details: String,
    pub large_image: String,
    pub large_text: String,
    pub buttons: Vec<Button>,
}

/// Key of the large branding image.
pub open spec fn brand_image() -> Seq<char> {
    "nuvion_client_icon"@
}

/// Alt text of the large branding image.
pub open spec fn brand_text() -> Seq<char> {
    "Nuvion Client"@
}

/// The two fixed links, as (label, url) pairs, in display order.
pub open spec fn fixed_links() -> Seq<(Seq<char>, Seq<char>)> {
    seq![
        ("Website"@, "https://nuvionclient.com/"@),
        ("Discord"@, "https://discord.gg/tnKvwNt3H4"@),
    ]
}

impl Button {
    pub open spec fn view_pair(&self) -> (Seq<char>, Seq<char>) {
        (self.label@, self.url@)
    }
}

impl Payload {
    /// The links of the payload as (label, url) pairs.
    pub open spec fn links(&self) -> Seq<(Seq<char>, Seq<char>)> {
        self.buttons@.map_values(|b: Button| b.view_pair())
    }

    /// The payload carries the given texts, the branding image and text, and
    /// exactly the two fixed links.
    pub open spec fn describes(&self, state: Seq<char>, details: Seq<char>) -> bool {
        &&& self.state@ == state
        &&& self.details@ == details
        &&& self.large_image@ == brand_image()
        &&& self.large_text@ == brand_text()
        &&& self.links() == fixed_links()
    }
}

fn link(label: &str, url: &str) -> (b: Button)
    ensures
        b.label@ == label@,
        b.url@ == url@,
{
    Button { label: label.to_owned(), url: url.to_owned() }
}

/// Composes the activity shown for the given state and details texts.
pub fn activity_payload(state: String, details: String) -> (p: Payload)
    ensures
        p.describes(state@, details@),
{
    let mut buttons: Vec<Button> = Vec::new();
    buttons.push(link("Website", "https://nuvionclient.com/"));
    buttons.push(link("Discord", "https://discord.gg/tnKvwNt3H4"));
    let p = Payload {
        state,
        details,
        large_image: "nuvion_client_icon".to_owned(),
        large_text: "Nuvion Client".to_owned(),
        buttons,
    };
    assert(p.links() =~= fixed_links());
    p
}

} // verus!
