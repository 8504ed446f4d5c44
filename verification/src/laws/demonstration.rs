//! The demonstration and what is told of it.

use vstd::prelude::*;

use crate::events::DomainEvent;
use crate::events::ThermalEvent;
use crate::narratives::NARRATIVES;
use crate::scenario::demonstration;
use crate::scenario::in_order;
use crate::scenario::EntryView;
use crate::text::decimal_text;

verus! {

/// An event as the narrative announces it: what, who, when, and how hot.
pub open spec fn announced(entry: EntryView) -> Seq<char> {
    entry.kind.label() + " — "@ + entry.user + " @ t="@ + decimal_text(entry.ts as nat) + "s"@ + (
    match entry.kind {
        DomainEvent::Thermal(ThermalEvent::ThermalReading(temp)) => ", "@ + decimal_text(
            temp as nat,
        ) + "°C"@,
        _ => Seq::empty(),
    })
}

proof fn lemma_step_1_announced()
    ensures
        NARRATIVES[0][0].1@ == announced(demonstration()[0]),
{
    reveal_strlit("RoleAssigned — svc_alpha @ t=1000s");
    reveal_strlit("RoleAssigned");
    reveal_strlit("svc_alpha");
    reveal_strlit(" — ");
    reveal_strlit(" @ t=");
    reveal_strlit("s");
    reveal_with_fuel(decimal_text, 6);
    assert(decimal_text(1000) =~= seq!['1', '0', '0', '0']);
    assert(NARRATIVES[0][0].1@ =~= announced(demonstration()[0]));
}

proof fn lemma_step_2_announced()
    ensures
        NARRATIVES[1][0].1@ == announced(demonstration()[1]),
{
    reveal_strlit("AdminActionTaken — svc_alpha @ t=1030s");
    reveal_strlit("AdminActionTaken");
    reveal_strlit("svc_alpha");
    reveal_strlit(" — ");
    reveal_strlit(" @ t=");
    reveal_strlit("s");
    reveal_with_fuel(decimal_text, 6);
    assert(decimal_text(1030) =~= seq!['1', '0', '3', '0']);
    assert(NARRATIVES[1][0].1@ =~= announced(demonstration()[1]));
}

proof fn lemma_step_3_announced()
    ensures
        NARRATIVES[2][0].1@ == announced(demonstration()[2]),
{
    reveal_strlit("WorkloadScheduled — rack_a @ t=2000s");
    reveal_strlit("WorkloadScheduled");
    reveal_strlit("rack_a");
    reveal_strlit(" — ");
    reveal_strlit(" @ t=");
    reveal_strlit("s");
    reveal_with_fuel(decimal_text, 6);
    assert(decimal_text(2000) =~= seq!['2', '0', '0', '0']);
    assert(NARRATIVES[2][0].1@ =~= announced(demonstration()[2]));
}

proof fn lemma_step_4_announced()
    ensures
        NARRATIVES[3][0].1@ == announced(demonstration()[3]),
{
    reveal_strlit("ThermalReading — rack_a @ t=2300s, 52°C");
    reveal_strlit("ThermalReading");
    reveal_strlit("rack_a");
    reveal_strlit(" — ");
    reveal_strlit(" @ t=");
    reveal_strlit("s");
    reveal_strlit(", ");
    reveal_strlit("°C");
    reveal_with_fuel(decimal_text, 6);
    assert(decimal_text(2300) =~= seq!['2', '3', '0', '0']);
    assert(decimal_text(52) =~= seq!['5', '2']);
    assert(NARRATIVES[3][0].1@ =~= announced(demonstration()[3]));
}

proof fn lemma_step_5_announced()
    ensures
        NARRATIVES[4][0].1@ == announced(demonstration()[4]),
{
    reveal_strlit("StateValidated — orchestrator @ t=3000s");
    reveal_strlit("StateValidated");
    reveal_strlit("orchestrator");
    reveal_strlit(" — ");
    reveal_strlit(" @ t=");
    reveal_strlit("s");
    reveal_with_fuel(decimal_text, 6);
    assert(decimal_text(3000) =~= seq!['3', '0', '0', '0']);
    assert(NARRATIVES[4][0].1@ =~= announced(demonstration()[4]));
}

proof fn lemma_step_6_announced()
    ensures
        NARRATIVES[5][0].1@ == announced(demonstration()[5]),
{
    reveal_strlit("AutomationTriggered — orchestrator @ t=3100s");
    reveal_strlit("AutomationTriggered");
    reveal_strlit("orchestrator");
    reveal_strlit(" — ");
    reveal_strlit(" @ t=");
    reveal_strlit("s");
    reveal_with_fuel(decimal_text, 6);
    assert(decimal_text(3100) =~= seq!['3', '1', '0', '0']);
    assert(NARRATIVES[5][0].1@ =~= announced(demonstration()[5]));
}

proof fn lemma_step_7_announced()
    ensures
        NARRATIVES[6][0].1@ == announced(demonstration()[6]),
{
    reveal_strlit("AdminActionTaken — rogue_svc @ t=4000s");
    reveal_strlit("AdminActionTaken");
    reveal_strlit("rogue_svc");
    reveal_strlit(" — ");
    reveal_strlit(" @ t=");
    reveal_strlit("s");
    reveal_with_fuel(decimal_text, 6);
    assert(decimal_text(4000) =~= seq!['4', '0', '0', '0']);
    assert(NARRATIVES[6][0].1@ =~= announced(demonstration()[6]));
}

proof fn lemma_step_8_announced()
    ensures
        NARRATIVES[7][0].1@ == announced(demonstration()[7]),
{
    reveal_strlit("RoleAssigned — svc_beta @ t=4200s");
    reveal_strlit("RoleAssigned");
    reveal_strlit("svc_beta");
    reveal_strlit(" — ");
    reveal_strlit(" @ t=");
    reveal_strlit("s");
    reveal_with_fuel(decimal_text, 6);
    assert(decimal_text(4200) =~= seq!['4', '2', '0', '0']);
    assert(NARRATIVES[7][0].1@ =~= announced(demonstration()[7]));
}

proof fn lemma_step_9_announced()
    ensures
        NARRATIVES[8][0].1@ == announced(demonstration()[8]),
{
    reveal_strlit("AdminActionTaken — svc_beta @ t=8000s");
    reveal_strlit("AdminActionTaken");
    reveal_strlit("svc_beta");
    reveal_strlit(" — ");
    reveal_strlit(" @ t=");
    reveal_strlit("s");
    reveal_with_fuel(decimal_text, 6);
    assert(decimal_text(8000) =~= seq!['8', '0', '0', '0']);
    assert(NARRATIVES[8][0].1@ =~= announced(demonstration()[8]));
}

proof fn lemma_step_10_announced()
    ensures
        NARRATIVES[9][0].1@ == announced(demonstration()[9]),
{
    reveal_strlit("ThermalReading — rack_b @ t=9000s, 56°C");
    reveal_strlit("ThermalReading");
    reveal_strlit("rack_b");
    reveal_strlit(" — ");
    reveal_strlit(" @ t=");
    reveal_strlit("s");
    reveal_strlit(", ");
    reveal_strlit("°C");
    reveal_with_fuel(decimal_text, 6);
    assert(decimal_text(9000) =~= seq!['9', '0', '0', '0']);
    assert(decimal_text(56) =~= seq!['5', '6']);
    assert(NARRATIVES[9][0].1@ =~= announced(demonstration()[9]));
}

proof fn lemma_step_11_announced()
    ensures
        NARRATIVES[10][0].1@ == announced(demonstration()[10]),
{
    reveal_strlit("ThermalReading — rack_b @ t=9600s, 61°C");
    reveal_strlit("ThermalReading");
    reveal_strlit("rack_b");
    reveal_strlit(" — ");
    reveal_strlit(" @ t=");
    reveal_strlit("s");
    reveal_strlit(", ");
    reveal_strlit("°C");
    reveal_with_fuel(decimal_text, 6);
    assert(decimal_text(9600) =~= seq!['9', '6', '0', '0']);
    assert(decimal_text(61) =~= seq!['6', '1']);
    assert(NARRATIVES[10][0].1@ =~= announced(demonstration()[10]));
}

proof fn lemma_step_12_announced()
    ensures
        NARRATIVES[11][0].1@ == announced(demonstration()[11]),
{
    reveal_strlit("ThermalReading — rack_b @ t=10200s, 64°C");
    reveal_strlit("ThermalReading");
    reveal_strlit("rack_b");
    reveal_strlit(" — ");
    reveal_strlit(" @ t=");
    reveal_strlit("s");
    reveal_strlit(", ");
    reveal_strlit("°C");
    reveal_with_fuel(decimal_text, 6);
    assert(decimal_text(10200) =~= seq!['1', '0', '2', '0', '0']);
    assert(decimal_text(64) =~= seq!['6', '4']);
    assert(NARRATIVES[11][0].1@ =~= announced(demonstration()[11]));
}

proof fn lemma_step_13_announced()
    ensures
        NARRATIVES[12][0].1@ == announced(demonstration()[12]),
{
    reveal_strlit("AutomationTriggered — orchestrator @ t=11000s");
    reveal_strlit("AutomationTriggered");
    reveal_strlit("orchestrator");
    reveal_strlit(" — ");
    reveal_strlit(" @ t=");
    reveal_strlit("s");
    reveal_with_fuel(decimal_text, 6);
    assert(decimal_text(11000) =~= seq!['1', '1', '0', '0', '0']);
    assert(NARRATIVES[12][0].1@ =~= announced(demonstration()[12]));
}

proof fn lemma_step_14_announced()
    ensures
        NARRATIVES[13][0].1@ == announced(demonstration()[13]),
{
    reveal_strlit("AutomationTriggered — orchestrator @ t=11200s");
    reveal_strlit("AutomationTriggered");
    reveal_strlit("orchestrator");
    reveal_strlit(" — ");
    reveal_strlit(" @ t=");
    reveal_strlit("s");
    reveal_with_fuel(decimal_text, 6);
    assert(decimal_text(11200) =~= seq!['1', '1', '2', '0', '0']);
    assert(NARRATIVES[13][0].1@ =~= announced(demonstration()[13]));
}

proof fn lemma_step_15_announced()
    ensures
        NARRATIVES[14][0].1@ == announced(demonstration()[14]),
{
    reveal_strlit("AutomationTriggered — orchestrator @ t=11400s");
    reveal_strlit("AutomationTriggered");
    reveal_strlit("orchestrator");
    reveal_strlit(" — ");
    reveal_strlit(" @ t=");
    reveal_strlit("s");
    reveal_with_fuel(decimal_text, 6);
    assert(decimal_text(11400) =~= seq!['1', '1', '4', '0', '0']);
    assert(NARRATIVES[14][0].1@ =~= announced(demonstration()[14]));
}

/// The narrative tells of the events of the demonstration, each in its place, and the events are
/// in order of time and shown under their own entities.
pub proof fn law_narratives_follow_the_demonstration(i: int)
    requires
        0 <= i < 15,
    ensures
        demonstration().len() == 15,
        NARRATIVES[i][0].1@ == announced(demonstration()[i]),
        demonstration()[i].group == demonstration()[i].user,
        in_order(demonstration()),
{
    lemma_step_1_announced();
    lemma_step_2_announced();
    lemma_step_3_announced();
    lemma_step_4_announced();
    lemma_step_5_announced();
    lemma_step_6_announced();
    lemma_step_7_announced();
    lemma_step_8_announced();
    lemma_step_9_announced();
    lemma_step_10_announced();
    lemma_step_11_announced();
    lemma_step_12_announced();
    lemma_step_13_announced();
    lemma_step_14_announced();
    lemma_step_15_announced();
}

} // verus!
