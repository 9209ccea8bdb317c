//! Campaign step tables: the ordered objectives each tutorial campaign walks
//! through, and what completes each objective.

use vstd::prelude::*;
use crate::campaign::CampaignId;

verus! {

/// What completes a step's objective.
#[derive(Clone, Copy, Debug)]
pub enum Trigger {
    /// Claim this many tiles since spawn.
    TilesGained(u32),
    /// Eliminate this many players in total.
    TribesEaten(u32),
    /// Eliminate the faction with this name (it must be in the roster).
    DefeatedPlayer(&'static str),
}

/// One objective of a campaign.
#[derive(Clone, Copy, Debug)]
pub struct Step {
    /// Dialog title and objective row label.
    pub title: &'static str,
    /// Narration shown in the dialog.
    pub body: &'static str,
    /// One terse line under the objective row.
    pub hint: &'static str,
    pub advance: Trigger,
}

/// Steps of the Boudica campaign, in order.
pub open spec fn chapter_1_steps() -> Seq<Step> {
    seq![
        Step {
            title: "Rise of the Iceni",
            body: "Welcome to the campaign. Start by tapping unclaimed land beyond your border to capture territory. Each tile generates troops and gold.",
            hint: "Tap unclaimed land to expand territory",
            advance: Trigger::TilesGained(256),
        },
        Step {
            title: "Grow the Warband",
            body: "Territory scales your economy. Continue expanding outward to increase troop generation and gold income.",
            hint: "Expand to reach 1,024 tiles held",
            advance: Trigger::TilesGained(1024),
        },
        Step {
            title: "First Contact",
            body: "Enemy outposts control adjacent territory. Learn combat: select your forces and drag into enemy borders to attack.",
            hint: "Drag to attack an outpost — defeat 1 enemy",
            advance: Trigger::TribesEaten(1),
        },
        Step {
            title: "Unite the East",
            body: "Neutralize surrounding regional outposts to secure the eastern front under your banner.",
            hint: "Defeat 4 regional outposts",
            advance: Trigger::TribesEaten(4),
        },
        Step {
            title: "Siege of Camulodunum",
            body: "Siege mechanics: surround Camulodunum and cut off reinforcements to capture the settlement.",
            hint: "Capture Camulodunum to the south",
            advance: Trigger::DefeatedPlayer("Camulodunum"),
        },
        Step {
            title: "Advance on Londinium",
            body: "Londinium controls central trade. Capture the settlement to secure the river crossing.",
            hint: "Capture Londinium",
            advance: Trigger::DefeatedPlayer("Londinium"),
        },
        Step {
            title: "Capture Verulamium",
            body: "Verulamium on Watling Street. Capture the settlement to cut imperial supply lines.",
            hint: "Capture Verulamium",
            advance: Trigger::DefeatedPlayer("Verulamium"),
        },
        Step {
            title: "Ambush the Ninth",
            body: "Legio IX Hispana is advancing from the north. Intercept and defeat their forces.",
            hint: "Intercept Legio IX Hispana",
            advance: Trigger::DefeatedPlayer("Legio IX Hispana"),
        },
        Step {
            title: "The Final Battle",
            body: "Tutorial complete. You have mastered expansion, combat, and siege. Defeat Suetonius Paulinus, then return to the main menu to choose the next campaign episode or multiplayer. (100 Crowns earned)",
            hint: "Defeat Paulinus, then return to menu",
            advance: Trigger::DefeatedPlayer("Legio XIV Gemina"),
        },
    ]
}

fn chapter_1_table() -> (r: Vec<Step>)
    ensures
        r@ == chapter_1_steps(),
{
    let mut r: Vec<Step> = Vec::new();
    r.push(Step {
        title: "Rise of the Iceni",
        body: "Welcome to the campaign. Start by tapping unclaimed land beyond your border to capture territory. Each tile generates troops and gold.",
        hint: "Tap unclaimed land to expand territory",
        advance: Trigger::TilesGained(256),
    });
    r.push(Step {
        title: "Grow the Warband",
        body: "Territory scales your economy. Continue expanding outward to increase troop generation and gold income.",
        hint: "Expand to reach 1,024 tiles held",
        advance: Trigger::TilesGained(1024),
    });
    r.push(Step {
        title: "First Contact",
        body: "Enemy outposts control adjacent territory. Learn combat: select your forces and drag into enemy borders to attack.",
        hint: "Drag to attack an outpost — defeat 1 enemy",
        advance: Trigger::TribesEaten(1),
    });
    r.push(Step {
        title: "Unite the East",
        body: "Neutralize surrounding regional outposts to secure the eastern front under your banner.",
        hint: "Defeat 4 regional outposts",
        advance: Trigger::TribesEaten(4),
    });
    r.push(Step {
        title: "Siege of Camulodunum",
        body: "Siege mechanics: surround Camulodunum and cut off reinforcements to capture the settlement.",
        hint: "Capture Camulodunum to the south",
        advance: Trigger::DefeatedPlayer("Camulodunum"),
    });
    r.push(Step {
        title: "Advance on Londinium",
        body: "Londinium controls central trade. Capture the settlement to secure the river crossing.",
        hint: "Capture Londinium",
        advance: Trigger::DefeatedPlayer("Londinium"),
    });
    r.push(Step {
        title: "Capture Verulamium",
        body: "Verulamium on Watling Street. Capture the settlement to cut imperial supply lines.",
        hint: "Capture Verulamium",
        advance: Trigger::DefeatedPlayer("Verulamium"),
    });
    r.push(Step {
        title: "Ambush the Ninth",
        body: "Legio IX Hispana is advancing from the north. Intercept and defeat their forces.",
        hint: "Intercept Legio IX Hispana",
        advance: Trigger::DefeatedPlayer("Legio IX Hispana"),
    });
    r.push(Step {
        title: "The Final Battle",
        body: "Tutorial complete. You have mastered expansion, combat, and siege. Defeat Suetonius Paulinus, then return to the main menu to choose the next campaign episode or multiplayer. (100 Crowns earned)",
        hint: "Defeat Paulinus, then return to menu",
        advance: Trigger::DefeatedPlayer("Legio XIV Gemina"),
    });
    assert(r@ =~= chapter_1_steps());
    r
}

/// Steps of the SixSkyEp1 campaign, in order.
pub open spec fn six_sky_ep1_steps() -> Seq<Step> {
    seq![
        Step {
            title: "Landfall",
            body: "682 CE. You are Wak Chanil Ajaw, daughter of Dos Pilas, come to rule Naranjo. Tap unclaimed land beyond your border to claim it.",
            hint: "Tap unclaimed land to expand",
            advance: Trigger::TilesGained(128),
        },
        Step {
            title: "Sacred Fire",
            body: "Three days after your arrival the stelae record a burning ritual. Grow your ground — every tile feeds your troops and gold.",
            hint: "Expand to reach 512 tiles held",
            advance: Trigger::TilesGained(512),
        },
        Step {
            title: "First Blood",
            body: "Small villages hold the shore. Drag into an enemy border to attack and take your first rival.",
            hint: "Drag to attack — defeat 1 enemy",
            advance: Trigger::TribesEaten(1),
        },
        Step {
            title: "The Villages Kneel",
            body: "The lakeside villages must learn the new dynasty's name. Subdue them all.",
            hint: "Defeat 4 villages",
            advance: Trigger::TribesEaten(4),
        },
        Step {
            title: "The Old Blood",
            body: "A claimant of Naranjo's old line denies your right. The record names K'ahk' Xiiw Chan Chaahk before you — end his heir.",
            hint: "Defeat the Rival Claimant",
            advance: Trigger::DefeatedPlayer("Rival Claimant"),
        },
        Step {
            title: "Break the Breaker",
            body: "Caracol left Naranjo kingless once before. Its garrison must fall so the city believes you can protect it.",
            hint: "Defeat Caracol",
            advance: Trigger::DefeatedPlayer("Caracol"),
        },
        Step {
            title: "Tikal's Eyes",
            body: "Tikal watches through its vanguard. Blind the great city — take its forward post.",
            hint: "Defeat the Tikal Vanguard",
            advance: Trigger::DefeatedPlayer("Tikal Vanguard"),
        },
        Step {
            title: "Queen of Naranjo",
            body: "Naranjo is yours, though the scribes never grant you its holy title. Tikal itself camps nearby — break it, and your line is secure. A son is foretold.",
            hint: "Defeat Tikal",
            advance: Trigger::DefeatedPlayer("Tikal"),
        },
    ]
}

fn six_sky_ep1_table() -> (r: Vec<Step>)
    ensures
        r@ == six_sky_ep1_steps(),
{
    let mut r: Vec<Step> = Vec::new();
    r.push(Step {
        title: "Landfall",
        body: "682 CE. You are Wak Chanil Ajaw, daughter of Dos Pilas, come to rule Naranjo. Tap unclaimed land beyond your border to claim it.",
        hint: "Tap unclaimed land to expand",
        advance: Trigger::TilesGained(128),
    });
    r.push(Step {
        title: "Sacred Fire",
        body: "Three days after your arrival the stelae record a burning ritual. Grow your ground — every tile feeds your troops and gold.",
        hint: "Expand to reach 512 tiles held",
        advance: Trigger::TilesGained(512),
    });
    r.push(Step {
        title: "First Blood",
        body: "Small villages hold the shore. Drag into an enemy border to attack and take your first rival.",
        hint: "Drag to attack — defeat 1 enemy",
        advance: Trigger::TribesEaten(1),
    });
    r.push(Step {
        title: "The Villages Kneel",
        body: "The lakeside villages must learn the new dynasty's name. Subdue them all.",
        hint: "Defeat 4 villages",
        advance: Trigger::TribesEaten(4),
    });
    r.push(Step {
        title: "The Old Blood",
        body: "A claimant of Naranjo's old line denies your right. The record names K'ahk' Xiiw Chan Chaahk before you — end his heir.",
        hint: "Defeat the Rival Claimant",
        advance: Trigger::DefeatedPlayer("Rival Claimant"),
    });
    r.push(Step {
        title: "Break the Breaker",
        body: "Caracol left Naranjo kingless once before. Its garrison must fall so the city believes you can protect it.",
        hint: "Defeat Caracol",
        advance: Trigger::DefeatedPlayer("Caracol"),
    });
    r.push(Step {
        title: "Tikal's Eyes",
        body: "Tikal watches through its vanguard. Blind the great city — take its forward post.",
        hint: "Defeat the Tikal Vanguard",
        advance: Trigger::DefeatedPlayer("Tikal Vanguard"),
    });
    r.push(Step {
        title: "Queen of Naranjo",
        body: "Naranjo is yours, though the scribes never grant you its holy title. Tikal itself camps nearby — break it, and your line is secure. A son is foretold.",
        hint: "Defeat Tikal",
        advance: Trigger::DefeatedPlayer("Tikal"),
    });
    assert(r@ =~= six_sky_ep1_steps());
    r
}

/// Steps of the SixSkyEp2 campaign, in order.
pub open spec fn six_sky_ep2_steps() -> Seq<Step> {
    seq![
        Step {
            title: "Regent",
            body: "693 CE. Your five-year-old son is king of Naranjo, and you rule in his name. The provinces smell weakness. Expand and show strength.",
            hint: "Tap unclaimed land to expand",
            advance: Trigger::TilesGained(256),
        },
        Step {
            title: "The Provinces Stir",
            body: "Rebellion ferments in the villages. Strike first — take two rivals before they unite.",
            hint: "Defeat 2 enemies",
            advance: Trigger::TribesEaten(2),
        },
        Step {
            title: "First Fire: Uaxactun",
            body: "Uaxactun rebels. Whether the burning was rite or ruin, the stelae remember fire. Burn Uaxactun's defiance out.",
            hint: "Defeat Uaxactun Rebels",
            advance: Trigger::DefeatedPlayer("Uaxactun Rebels"),
        },
        Step {
            title: "Second Fire: Yaxha",
            body: "Yaxha on the lake rises next. Force it to reaffirm its allegiance — by kneeling or by ashes.",
            hint: "Defeat Yaxha Rebels",
            advance: Trigger::DefeatedPlayer("Yaxha Rebels"),
        },
        Step {
            title: "Third Fire: Tayasal",
            body: "Tayasal tests you. A regent who cannot hold Tayasal cannot hold Naranjo.",
            hint: "Defeat Tayasal Rebels",
            advance: Trigger::DefeatedPlayer("Tayasal Rebels"),
        },
        Step {
            title: "Fourth Fire: Seibal",
            body: "Seibal's canoes carry rebellion downriver. Sink its defiance.",
            hint: "Defeat Seibal Rebels",
            advance: Trigger::DefeatedPlayer("Seibal Rebels"),
        },
        Step {
            title: "The Breaker Returns",
            body: "Caracol, the old breaker of Naranjo, backs the rebels. Settle the oldest debt of your reign.",
            hint: "Defeat Caracol",
            advance: Trigger::DefeatedPlayer("Caracol"),
        },
        Step {
            title: "Reaffirm or Burn",
            body: "Every neighbor must choose: reaffirm allegiance to the regent, or share the rebels' fate. Keep winning.",
            hint: "Defeat 8 enemies in total",
            advance: Trigger::TribesEaten(8),
        },
        Step {
            title: "The Coalition Breaks",
            body: "Tikal gathered your enemies into one coalition. Break it and no city will doubt the regency. The moon goddess watches — 726 approaches.",
            hint: "Defeat the Tikal Coalition",
            advance: Trigger::DefeatedPlayer("Tikal Coalition"),
        },
    ]
}

fn six_sky_ep2_table() -> (r: Vec<Step>)
    ensures
        r@ == six_sky_ep2_steps(),
{
    let mut r: Vec<Step> = Vec::new();
    r.push(Step {
        title: "Regent",
        body: "693 CE. Your five-year-old son is king of Naranjo, and you rule in his name. The provinces smell weakness. Expand and show strength.",
        hint: "Tap unclaimed land to expand",
        advance: Trigger::TilesGained(256),
    });
    r.push(Step {
        title: "The Provinces Stir",
        body: "Rebellion ferments in the villages. Strike first — take two rivals before they unite.",
        hint: "Defeat 2 enemies",
        advance: Trigger::TribesEaten(2),
    });
    r.push(Step {
        title: "First Fire: Uaxactun",
        body: "Uaxactun rebels. Whether the burning was rite or ruin, the stelae remember fire. Burn Uaxactun's defiance out.",
        hint: "Defeat Uaxactun Rebels",
        advance: Trigger::DefeatedPlayer("Uaxactun Rebels"),
    });
    r.push(Step {
        title: "Second Fire: Yaxha",
        body: "Yaxha on the lake rises next. Force it to reaffirm its allegiance — by kneeling or by ashes.",
        hint: "Defeat Yaxha Rebels",
        advance: Trigger::DefeatedPlayer("Yaxha Rebels"),
    });
    r.push(Step {
        title: "Third Fire: Tayasal",
        body: "Tayasal tests you. A regent who cannot hold Tayasal cannot hold Naranjo.",
        hint: "Defeat Tayasal Rebels",
        advance: Trigger::DefeatedPlayer("Tayasal Rebels"),
    });
    r.push(Step {
        title: "Fourth Fire: Seibal",
        body: "Seibal's canoes carry rebellion downriver. Sink its defiance.",
        hint: "Defeat Seibal Rebels",
        advance: Trigger::DefeatedPlayer("Seibal Rebels"),
    });
    r.push(Step {
        title: "The Breaker Returns",
        body: "Caracol, the old breaker of Naranjo, backs the rebels. Settle the oldest debt of your reign.",
        hint: "Defeat Caracol",
        advance: Trigger::DefeatedPlayer("Caracol"),
    });
    r.push(Step {
        title: "Reaffirm or Burn",
        body: "Every neighbor must choose: reaffirm allegiance to the regent, or share the rebels' fate. Keep winning.",
        hint: "Defeat 8 enemies in total",
        advance: Trigger::TribesEaten(8),
    });
    r.push(Step {
        title: "The Coalition Breaks",
        body: "Tikal gathered your enemies into one coalition. Break it and no city will doubt the regency. The moon goddess watches — 726 approaches.",
        hint: "Defeat the Tikal Coalition",
        advance: Trigger::DefeatedPlayer("Tikal Coalition"),
    });
    assert(r@ =~= six_sky_ep2_steps());
    r
}

/// Steps of the SixSkyEp3 campaign, in order.
pub open spec fn six_sky_ep3_steps() -> Seq<Step> {
    seq![
        Step {
            title: "The Long Count",
            body: "The years have made you legend and target both. Expand once more — Naranjo must look strong when the goddess arrives.",
            hint: "Tap unclaimed land to expand",
            advance: Trigger::TilesGained(256),
        },
        Step {
            title: "Offerings",
            body: "Gods and soldiers both demand tribute. Take two rivals to feed the altars and the guard.",
            hint: "Defeat 2 enemies",
            advance: Trigger::TribesEaten(2),
        },
        Step {
            title: "The Unknown Enemy",
            body: "K'inichil Kab — the scribes still argue over where it rules from. Stela 24 will show its captive under your feet regardless.",
            hint: "Defeat K'inichil Kab",
            advance: Trigger::DefeatedPlayer("K'inichil Kab"),
        },
        Step {
            title: "War Host",
            body: "Caracol sends a full war host, its last throw against your line. Destroy it.",
            hint: "Defeat the Caracol War Host",
            advance: Trigger::DefeatedPlayer("Caracol War Host"),
        },
        Step {
            title: "The Hill",
            body: "Xunantunich on its hill bows to no regent. Make the hill bow.",
            hint: "Defeat Xunantunich Rebels",
            advance: Trigger::DefeatedPlayer("Xunantunich Rebels"),
        },
        Step {
            title: "Moon Goddess",
            body: "February 9, 726 — the new year. You don the moon goddess regalia before the city. Hold a great domain worthy of her: grow vast.",
            hint: "Expand to reach 1,024 tiles held",
            advance: Trigger::TilesGained(1024),
        },
        Step {
            title: "Vanguard at Dusk",
            body: "Tikal's vanguard comes at dusk, hoping age has softened you. Show them the Stela 24 queen.",
            hint: "Defeat the Tikal Vanguard",
            advance: Trigger::DefeatedPlayer("Tikal Vanguard"),
        },
        Step {
            title: "Tribute Denied",
            body: "Tikal demands tribute from Naranjo one final time. Answer with war — keep defeating all who stand with them.",
            hint: "Defeat 6 enemies in total",
            advance: Trigger::TribesEaten(6),
        },
        Step {
            title: "Legacy in Stone",
            body: "Tikal itself. Win, and your son's line holds the city until 741 and beyond — your stelae still stand today. This is the last battle of the saga.",
            hint: "Defeat Tikal",
            advance: Trigger::DefeatedPlayer("Tikal"),
        },
    ]
}

fn six_sky_ep3_table() -> (r: Vec<Step>)
    ensures
        r@ == six_sky_ep3_steps(),
{
    let mut r: Vec<Step> = Vec::new();
    r.push(Step {
        title: "The Long Count",
        body: "The years have made you legend and target both. Expand once more — Naranjo must look strong when the goddess arrives.",
        hint: "Tap unclaimed land to expand",
        advance: Trigger::TilesGained(256),
    });
    r.push(Step {
        title: "Offerings",
        body: "Gods and soldiers both demand tribute. Take two rivals to feed the altars and the guard.",
        hint: "Defeat 2 enemies",
        advance: Trigger::TribesEaten(2),
    });
    r.push(Step {
        title: "The Unknown Enemy",
        body: "K'inichil Kab — the scribes still argue over where it rules from. Stela 24 will show its captive under your feet regardless.",
        hint: "Defeat K'inichil Kab",
        advance: Trigger::DefeatedPlayer("K'inichil Kab"),
    });
    r.push(Step {
        title: "War Host",
        body: "Caracol sends a full war host, its last throw against your line. Destroy it.",
        hint: "Defeat the Caracol War Host",
        advance: Trigger::DefeatedPlayer("Caracol War Host"),
    });
    r.push(Step {
        title: "The Hill",
        body: "Xunantunich on its hill bows to no regent. Make the hill bow.",
        hint: "Defeat Xunantunich Rebels",
        advance: Trigger::DefeatedPlayer("Xunantunich Rebels"),
    });
    r.push(Step {
        title: "Moon Goddess",
        body: "February 9, 726 — the new year. You don the moon goddess regalia before the city. Hold a great domain worthy of her: grow vast.",
        hint: "Expand to reach 1,024 tiles held",
        advance: Trigger::TilesGained(1024),
    });
    r.push(Step {
        title: "Vanguard at Dusk",
        body: "Tikal's vanguard comes at dusk, hoping age has softened you. Show them the Stela 24 queen.",
        hint: "Defeat the Tikal Vanguard",
        advance: Trigger::DefeatedPlayer("Tikal Vanguard"),
    });
    r.push(Step {
        title: "Tribute Denied",
        body: "Tikal demands tribute from Naranjo one final time. Answer with war — keep defeating all who stand with them.",
        hint: "Defeat 6 enemies in total",
        advance: Trigger::TribesEaten(6),
    });
    r.push(Step {
        title: "Legacy in Stone",
        body: "Tikal itself. Win, and your son's line holds the city until 741 and beyond — your stelae still stand today. This is the last battle of the saga.",
        hint: "Defeat Tikal",
        advance: Trigger::DefeatedPlayer("Tikal"),
    });
    assert(r@ =~= six_sky_ep3_steps());
    r
}

/// Steps of campaign `c`, in order.
pub open spec fn campaign_steps(c: CampaignId) -> Seq<Step> {
    match c {
        CampaignId::Boudica => chapter_1_steps(),
        CampaignId::SixSkyEp1 => six_sky_ep1_steps(),
        CampaignId::SixSkyEp2 => six_sky_ep2_steps(),
        CampaignId::SixSkyEp3 => six_sky_ep3_steps(),
    }
}

/// The ordered objectives of `campaign`.
pub fn steps_for(campaign: CampaignId) -> (r: Vec<Step>)
    ensures
        r@ == campaign_steps(campaign),
        r@.len() > 0,
{
    match campaign {
        CampaignId::Boudica => chapter_1_table(),
        CampaignId::SixSkyEp1 => six_sky_ep1_table(),
        CampaignId::SixSkyEp2 => six_sky_ep2_table(),
        CampaignId::SixSkyEp3 => six_sky_ep3_table(),
    }
}

} // verus!
