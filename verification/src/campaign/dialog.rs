//! The campaign dialog database: every scripted first-contact line, one
//! home for the words. A faction greets the player the first time the
//! player's territory reaches it; named factions have a written line, every
//! other faction a generic one that folds in its name.

use vstd::prelude::*;
use crate::campaign::CampaignId;
use crate::text::{push_text, same_text};

verus! {

/// One line of scripted speech.
pub struct Line {
    pub speaker: String,
    pub title: String,
    pub body: String,
}

impl Line {
    /// A line with owned copies of its parts.
    pub fn new(speaker: &str, title: &str, body: &str) -> (l: Line)
        ensures
            l.speaker@ == speaker@,
            l.title@ == title@,
            l.body@ == body@,
    {
        Line { speaker: speaker.to_owned(), title: title.to_owned(), body: body.to_owned() }
    }
}

/// Written first-contact lines of the Six Sky episodes, by faction name.
pub open spec fn six_sky_written(f: Seq<char>) -> Option<(Seq<char>, Seq<char>)> {
    if f == "Sa'aal Court"@ {
        Some(("Your court"@, "Sa'aal stands with you, queen from Dos Pilas. Naranjo is yours to rebuild — the old king fell to Caracol, and the court waited for you."@))
    } else if f == "Dos Pilas Honor Guard"@ {
        Some(("Father's guard"@, "We marched with you from Dos Pilas, daughter of B'alaj Chan K'awiil. The Calakmul alliance holds — while we stand."@))
    } else if f == "Naranjo Loyalists"@ {
        Some(("Sworn ally"@, "Loyalists of Naranjo. We kept the fires lit since the defeat. Command us, Lady Six Sky."@))
    } else if f == "K'ak' Tiliw Guard"@ {
        Some(("Your son's guard"@, "We guard the young king K'ak' Tiliw, born to you in 688. He is five years old — the city looks to you, regent."@))
    } else if f == "Dos Pilas Veterans"@ {
        Some(("Father's guard"@, "Veterans of Dos Pilas. Your father's house has not forgotten you — nor has Calakmul."@))
    } else if f == "Moon Priestesses"@ {
        Some(("Keepers of the count"@, "We keep the moon count with you, my lady. In 726 you will wear the goddess herself — but first, the war."@))
    } else if f == "Sa'aal Veterans"@ {
        Some(("Your court"@, "Veterans of Sa'aal. We burned with you, we bled with you. One more campaign, queen."@))
    } else if f == "Uaxactun Villagers"@ || f == "Uaxactun Rebels"@ {
        Some(("Lowland village"@, "Uaxactun minds its milpas. We are few, queen — be swift, and be merciful if you can."@))
    } else if f == "Yaxha Fishers"@ || f == "Yaxha Lookouts"@ || f == "Yaxha Rebels"@ {
        Some(("Lakeside people"@, "Yaxha fishes the lake and pays whoever holds the shore. Today that could be you."@))
    } else if f == "Tayasal Farmers"@ || f == "Tayasal Rebels"@ {
        Some(("Lowland village"@, "Tayasal plants and harvests. We have no quarrel with Naranjo — unless you bring one."@))
    } else if f == "Seibal Traders"@ || f == "Seibal Rebels"@ {
        Some(("River traders"@, "Seibal trades up and down the river. Spare our canoes and we will remember it."@))
    } else if f == "Topoxte"@ || f == "Topoxte Fishers"@ {
        Some(("Lakeside people"@, "Topoxte keeps to its island. The lake has fed us longer than any dynasty — do not drain it."@))
    } else if f == "Lamanai Fishers"@ {
        Some(("Lakeside people"@, "Lamanai endures, as always. Pass through, queen, and leave our nets alone."@))
    } else if f == "Altun Ha Traders"@ {
        Some(("River traders"@, "Altun Ha trades jade and salt. War is bad for business — but business adapts."@))
    } else if f == "Caracol Outpost"@ {
        Some(("Caracol's reach"@, "Caracol broke Naranjo once before. This outpost reminds you of it. Tear it down if you can."@))
    } else if f == "Tikal Tribute Post"@ {
        Some(("Tikal's reach"@, "Tikal collects from everyone, even in defeat. This post flies the great city's banner."@))
    } else if f == "Piedras Negras Garrison"@ {
        Some(("River garrison"@, "Piedras Negras holds the river crossing. We did not come for your war — but we will finish it."@))
    } else if f == "Copan Delegation"@ {
        Some(("Southern envoys"@, "Copan sends envoys, not armies. The south watches to see if a woman can hold Naranjo."@))
    } else if f == "Calakmul Emissaries"@ || f == "Calakmul Honor Guard"@ {
        Some(("The great ally"@, "Calakmul, head of the alliance your father serves. Prove Naranjo worthy and the serpent stands behind you."@))
    } else if f == "Palenque Envoys"@ {
        Some(("Western envoys"@, "Palenque sends words from the west. Words can become warriors — choose yours well."@))
    } else if f == "Yaxchilan Allies"@ {
        Some(("River allies"@, "Yaxchilan holds the upper river. Our canoes can carry warriors as easily as maize."@))
    } else if f == "Rival Claimant"@ {
        Some(("The old blood"@, "I am of the old line of Naranjo, of K'ahk' Xiiw Chan Chaahk. You are a stranger from Dos Pilas — this city is mine."@))
    } else if f == "Caracol"@ || f == "Caracol War Host"@ {
        Some(("The breaker"@, "Caracol, who left Naranjo kingless. You rebuilt what we broke, woman — we have come to break it again."@))
    } else if f == "Tikal Vanguard"@ {
        Some(("The great rival"@, "Tikal's vanguard. Calakmul's puppets do not impress the great city. Come and be buried, stranger queen."@))
    } else if f == "Tikal"@ || f == "Tikal Coalition"@ {
        Some(("The great city"@, "I am Tikal. Empires older than your dynasty have knelt to us. Burn your little fires, regent — the jungle remembers who endures."@))
    } else if f == "K'inichil Kab"@ {
        Some(("The unknown"@, "K'inichil Kab. The scribes argue over where we rule from — but Stela 24 will show you under the queen's feet all the same."@))
    } else if f == "Xunantunich Rebels"@ {
        Some(("Hill rebels"@, "Xunantunich bows to no regent. Our hill has stood before Naranjo and will stand after."@))
    } else if f == "Quirigua"@ {
        Some(("Southern watchers"@, "Quirigua watches the passes. We have survived greater queens than you — and lesser ones too."@))
    } else {
        None
    }
}

fn six_sky_entry(f: &str) -> (r: Option<(&'static str, &'static str)>)
    ensures
        match r {
            Some((t, b)) => six_sky_written(f@) == Some((t@, b@)),
            None => six_sky_written(f@) is None,
        },
{
    if same_text(f, "Sa'aal Court") {
        Some(("Your court", "Sa'aal stands with you, queen from Dos Pilas. Naranjo is yours to rebuild — the old king fell to Caracol, and the court waited for you."))
    } else if same_text(f, "Dos Pilas Honor Guard") {
        Some(("Father's guard", "We marched with you from Dos Pilas, daughter of B'alaj Chan K'awiil. The Calakmul alliance holds — while we stand."))
    } else if same_text(f, "Naranjo Loyalists") {
        Some(("Sworn ally", "Loyalists of Naranjo. We kept the fires lit since the defeat. Command us, Lady Six Sky."))
    } else if same_text(f, "K'ak' Tiliw Guard") {
        Some(("Your son's guard", "We guard the young king K'ak' Tiliw, born to you in 688. He is five years old — the city looks to you, regent."))
    } else if same_text(f, "Dos Pilas Veterans") {
        Some(("Father's guard", "Veterans of Dos Pilas. Your father's house has not forgotten you — nor has Calakmul."))
    } else if same_text(f, "Moon Priestesses") {
        Some(("Keepers of the count", "We keep the moon count with you, my lady. In 726 you will wear the goddess herself — but first, the war."))
    } else if same_text(f, "Sa'aal Veterans") {
        Some(("Your court", "Veterans of Sa'aal. We burned with you, we bled with you. One more campaign, queen."))
    } else if same_text(f, "Uaxactun Villagers") || same_text(f, "Uaxactun Rebels") {
        Some(("Lowland village", "Uaxactun minds its milpas. We are few, queen — be swift, and be merciful if you can."))
    } else if same_text(f, "Yaxha Fishers") || same_text(f, "Yaxha Lookouts") || same_text(f, "Yaxha Rebels") {
        Some(("Lakeside people", "Yaxha fishes the lake and pays whoever holds the shore. Today that could be you."))
    } else if same_text(f, "Tayasal Farmers") || same_text(f, "Tayasal Rebels") {
        Some(("Lowland village", "Tayasal plants and harvests. We have no quarrel with Naranjo — unless you bring one."))
    } else if same_text(f, "Seibal Traders") || same_text(f, "Seibal Rebels") {
        Some(("River traders", "Seibal trades up and down the river. Spare our canoes and we will remember it."))
    } else if same_text(f, "Topoxte") || same_text(f, "Topoxte Fishers") {
        Some(("Lakeside people", "Topoxte keeps to its island. The lake has fed us longer than any dynasty — do not drain it."))
    } else if same_text(f, "Lamanai Fishers") {
        Some(("Lakeside people", "Lamanai endures, as always. Pass through, queen, and leave our nets alone."))
    } else if same_text(f, "Altun Ha Traders") {
        Some(("River traders", "Altun Ha trades jade and salt. War is bad for business — but business adapts."))
    } else if same_text(f, "Caracol Outpost") {
        Some(("Caracol's reach", "Caracol broke Naranjo once before. This outpost reminds you of it. Tear it down if you can."))
    } else if same_text(f, "Tikal Tribute Post") {
        Some(("Tikal's reach", "Tikal collects from everyone, even in defeat. This post flies the great city's banner."))
    } else if same_text(f, "Piedras Negras Garrison") {
        Some(("River garrison", "Piedras Negras holds the river crossing. We did not come for your war — but we will finish it."))
    } else if same_text(f, "Copan Delegation") {
        Some(("Southern envoys", "Copan sends envoys, not armies. The south watches to see if a woman can hold Naranjo."))
    } else if same_text(f, "Calakmul Emissaries") || same_text(f, "Calakmul Honor Guard") {
        Some(("The great ally", "Calakmul, head of the alliance your father serves. Prove Naranjo worthy and the serpent stands behind you."))
    } else if same_text(f, "Palenque Envoys") {
        Some(("Western envoys", "Palenque sends words from the west. Words can become warriors — choose yours well."))
    } else if same_text(f, "Yaxchilan Allies") {
        Some(("River allies", "Yaxchilan holds the upper river. Our canoes can carry warriors as easily as maize."))
    } else if same_text(f, "Rival Claimant") {
        Some(("The old blood", "I am of the old line of Naranjo, of K'ahk' Xiiw Chan Chaahk. You are a stranger from Dos Pilas — this city is mine."))
    } else if same_text(f, "Caracol") || same_text(f, "Caracol War Host") {
        Some(("The breaker", "Caracol, who left Naranjo kingless. You rebuilt what we broke, woman — we have come to break it again."))
    } else if same_text(f, "Tikal Vanguard") {
        Some(("The great rival", "Tikal's vanguard. Calakmul's puppets do not impress the great city. Come and be buried, stranger queen."))
    } else if same_text(f, "Tikal") || same_text(f, "Tikal Coalition") {
        Some(("The great city", "I am Tikal. Empires older than your dynasty have knelt to us. Burn your little fires, regent — the jungle remembers who endures."))
    } else if same_text(f, "K'inichil Kab") {
        Some(("The unknown", "K'inichil Kab. The scribes argue over where we rule from — but Stela 24 will show you under the queen's feet all the same."))
    } else if same_text(f, "Xunantunich Rebels") {
        Some(("Hill rebels", "Xunantunich bows to no regent. Our hill has stood before Naranjo and will stand after."))
    } else if same_text(f, "Quirigua") {
        Some(("Southern watchers", "Quirigua watches the passes. We have survived greater queens than you — and lesser ones too."))
    } else {
        None
    }
}

/// Written first-contact lines of the Boudica episode, by faction name.
pub open spec fn boudica_written(f: Seq<char>) -> Option<(Seq<char>, Seq<char>)> {
    if f == "Cassi"@ {
        Some(("Independent clan"@, "We are the Cassi, who knelt to Caesar a hundred years past. We are few, queen of the Iceni — be swift."@))
    } else if f == "Bibroci"@ {
        Some(("Independent clan"@, "Bibroci, we are. We pay Rome's grain-tithe to keep our hearths warm. We have no stomach for your war."@))
    } else if f == "Ancalites"@ {
        Some(("Independent clan"@, "The Ancalites feast with Rome's tax-men. You will find us soft, daughter of the Iceni."@))
    } else if f == "Segontiaci"@ {
        Some(("Independent clan"@, "Segontiaci — the last of the kneelers. Take us, and all the east marches under your banner."@))
    } else if f == "Trinovantes"@ {
        Some(("Sworn ally"@, "The Trinovantes stand with you, Boudica. Rome seized our land for Camulodunum — we have not forgotten."@))
    } else if f == "Venta Icenorum"@ {
        Some(("Iceni capital"@, "Venta Icenorum, your own seat, my queen. The Iceni rally to your standard."@))
    } else if f == "Snettisham"@ {
        Some(("Iceni sanctuary"@, "Snettisham, keepers of the Iceni gold. Our torcs and our spears are yours."@))
    } else if f == "Thetford"@ {
        Some(("Iceni stronghold"@, "Thetford, hearth of the Iceni. Lead us against the eagle."@))
    } else if f == "Stonea"@ {
        Some(("Iceni fort"@, "Stonea, where we first defied Rome's disarmament. We rise again with you."@))
    } else if f == "Catuvellauni"@ {
        Some(("Client of Rome"@, "The Catuvellauni serve Rome now. We will not throw away what the eagle has given us."@))
    } else if f == "Atrebates"@ {
        Some(("Client of Rome"@, "Atrebates, friends of Rome under good king Cogidubnus. We want no part of your rebellion."@))
    } else if f == "Cantiaci"@ {
        Some(("Client of Rome"@, "Cantiaci of Kent, the gateway to Rome. We stand with the legions."@))
    } else if f == "Camulodunum"@ {
        Some(("Roman colony"@, "I am Camulodunum, where the Temple of Claudius stands. You would not dare, savage."@))
    } else if f == "Londinium"@ {
        Some(("Roman city"@, "Londinium, jewel of Roman trade. Turn back, Iceni, or burn with us."@))
    } else if f == "Verulamium"@ {
        Some(("Roman city"@, "Verulamium, loyal to Rome. Your rebellion ends at our walls."@))
    } else if f == "Rome"@ {
        Some(("The Empire"@, "I am Rome. I have swallowed greater kingdoms than yours, woman. Kneel, or be crushed."@))
    } else {
        None
    }
}

fn boudica_entry(f: &str) -> (r: Option<(&'static str, &'static str)>)
    ensures
        match r {
            Some((t, b)) => boudica_written(f@) == Some((t@, b@)),
            None => boudica_written(f@) is None,
        },
{
    if same_text(f, "Cassi") {
        Some(("Independent clan", "We are the Cassi, who knelt to Caesar a hundred years past. We are few, queen of the Iceni — be swift."))
    } else if same_text(f, "Bibroci") {
        Some(("Independent clan", "Bibroci, we are. We pay Rome's grain-tithe to keep our hearths warm. We have no stomach for your war."))
    } else if same_text(f, "Ancalites") {
        Some(("Independent clan", "The Ancalites feast with Rome's tax-men. You will find us soft, daughter of the Iceni."))
    } else if same_text(f, "Segontiaci") {
        Some(("Independent clan", "Segontiaci — the last of the kneelers. Take us, and all the east marches under your banner."))
    } else if same_text(f, "Trinovantes") {
        Some(("Sworn ally", "The Trinovantes stand with you, Boudica. Rome seized our land for Camulodunum — we have not forgotten."))
    } else if same_text(f, "Venta Icenorum") {
        Some(("Iceni capital", "Venta Icenorum, your own seat, my queen. The Iceni rally to your standard."))
    } else if same_text(f, "Snettisham") {
        Some(("Iceni sanctuary", "Snettisham, keepers of the Iceni gold. Our torcs and our spears are yours."))
    } else if same_text(f, "Thetford") {
        Some(("Iceni stronghold", "Thetford, hearth of the Iceni. Lead us against the eagle."))
    } else if same_text(f, "Stonea") {
        Some(("Iceni fort", "Stonea, where we first defied Rome's disarmament. We rise again with you."))
    } else if same_text(f, "Catuvellauni") {
        Some(("Client of Rome", "The Catuvellauni serve Rome now. We will not throw away what the eagle has given us."))
    } else if same_text(f, "Atrebates") {
        Some(("Client of Rome", "Atrebates, friends of Rome under good king Cogidubnus. We want no part of your rebellion."))
    } else if same_text(f, "Cantiaci") {
        Some(("Client of Rome", "Cantiaci of Kent, the gateway to Rome. We stand with the legions."))
    } else if same_text(f, "Camulodunum") {
        Some(("Roman colony", "I am Camulodunum, where the Temple of Claudius stands. You would not dare, savage."))
    } else if same_text(f, "Londinium") {
        Some(("Roman city", "Londinium, jewel of Roman trade. Turn back, Iceni, or burn with us."))
    } else if same_text(f, "Verulamium") {
        Some(("Roman city", "Verulamium, loyal to Rome. Your rebellion ends at our walls."))
    } else if same_text(f, "Rome") {
        Some(("The Empire", "I am Rome. I have swallowed greater kingdoms than yours, woman. Kneel, or be crushed."))
    } else {
        None
    }
}

/// Title and body of the Six Sky greeting of faction `f`.
pub open spec fn six_sky_text(f: Seq<char>) -> (Seq<char>, Seq<char>) {
    match six_sky_written(f) {
        Some(tb) => tb,
        None => (
            "A city of the lowlands"@,
            "The "@ + f + " watch your rising, queen of Naranjo. This is not yet our fight."@,
        ),
    }
}

/// Title and body of the Boudica greeting of faction `f`.
pub open spec fn boudica_text(f: Seq<char>) -> (Seq<char>, Seq<char>) {
    match boudica_written(f) {
        Some(tb) => tb,
        None => (
            "A people of Britain"@,
            "The "@ + f + " watch your rising, queen of the Iceni. This is not yet our fight."@,
        ),
    }
}

/// Title and body of the greeting of faction `f` in campaign `c`.
pub open spec fn contact_text(c: CampaignId, f: Seq<char>) -> (Seq<char>, Seq<char>) {
    match c {
        CampaignId::Boudica => boudica_text(f),
        _ => six_sky_text(f),
    }
}

fn generic_line(faction: &str, title: &str, tail: &str) -> (l: Line)
    ensures
        l.speaker@ == faction@,
        l.title@ == title@,
        l.body@ == "The "@ + faction@ + tail@,
{
    let mut body = "The ".to_owned();
    push_text(&mut body, faction);
    push_text(&mut body, tail);
    Line { speaker: faction.to_owned(), title: title.to_owned(), body }
}

/// A Six Sky faction's self-introduction. Where the written record is silent
/// the generic line says so instead of inventing facts.
pub fn first_contact_six_sky(faction: &str) -> (l: Line)
    ensures
        l.speaker@ == faction@,
        (l.title@, l.body@) == six_sky_text(faction@),
{
    match six_sky_entry(faction) {
        Some((title, body)) => Line::new(faction, title, body),
        None => generic_line(
            faction,
            "A city of the lowlands",
            " watch your rising, queen of Naranjo. This is not yet our fight.",
        ),
    }
}

/// A Boudica-episode faction's self-introduction.
pub fn first_contact_boudica(faction: &str) -> (l: Line)
    ensures
        l.speaker@ == faction@,
        (l.title@, l.body@) == boudica_text(faction@),
{
    match boudica_entry(faction) {
        Some((title, body)) => Line::new(faction, title, body),
        None => generic_line(
            faction,
            "A people of Britain",
            " watch your rising, queen of the Iceni. This is not yet our fight.",
        ),
    }
}

/// A faction's self-introduction in the Boudica intro, shown the first time
/// the player's territory reaches it. Every faction gets a line.
pub fn first_contact(faction: &str) -> (l: Line)
    ensures
        l.speaker@ == faction@,
        (l.title@, l.body@) == boudica_text(faction@),
{
    first_contact_for(CampaignId::Boudica, faction)
}

/// A faction's self-introduction in `campaign`.
pub fn first_contact_for(campaign: CampaignId, faction: &str) -> (l: Line)
    ensures
        l.speaker@ == faction@,
        (l.title@, l.body@) == contact_text(campaign, faction@),
{
    match campaign {
        CampaignId::Boudica => first_contact_boudica(faction),
        CampaignId::SixSkyEp1 | CampaignId::SixSkyEp2 | CampaignId::SixSkyEp3 => first_contact_six_sky(faction),
    }
}

} // verus!
