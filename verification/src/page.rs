//! The dashboard: one page that plays the steps of a run.

use vstd::prelude::*;
use vstd::string::*;

verus! {

/// The scenarios of the demonstration, with the number of variances that each has to show.
pub const SCENARIOS_JS: &'static str = r#"[
  {id:"A",name:"Legitimate Variation",label:"Scenario A \u2014 Legitimate Variation",domain:"Multi-Domain",description:"Authorised workload surge \u00b7 Approved privilege elevation \u00b7 Declared scheduling shift. All three domains behave correctly. Expected: no invariant violations.",expected:0},
  {id:"B",name:"Privilege Misuse",label:"Scenario B \u2014 Privilege Misuse",domain:"ControlPlane",description:"Credential-valid escalation \u00b7 Out-of-scope control-plane mutation. Expected: IAM invariant violation.",expected:2},
  {id:"C",name:"Silent Scheduler Bias",label:"Scenario C \u2014 Silent Scheduler Bias",domain:"Thermal",description:"Sustained rack skew \u00b7 No declared workload shift. Expected: control-plane and equilibrium invariant violation.",expected:3},
  {id:"D",name:"Automation Amplification",label:"Scenario D \u2014 Automation Amplification",domain:"Automation",description:"Automated response to incomplete state. Expected: automation invariant violation.",expected:3}
]"#;

/// The styles of the page.
pub const CSS: &'static str = r#"
*,*::before,*::after{box-sizing:border-box;margin:0;padding:0}
:root{
  --bg:#050b14;--surface:#091222;--panel:#0a1628;--border:#163354;
  --green:#00e5a0;--red:#ff3355;--yellow:#ffba3b;--blue:#4facfe;
  --text:#c9d8e8;--muted:#4a6585;--dim:#2a4060;--nbody:#8ba3bc;
}
html,body{height:100%;overflow:hidden}
body{background:var(--bg);color:var(--text);
  font-family:'Cascadia Code','Consolas','Courier New',monospace;
  display:flex;flex-direction:column;font-size:13px}
/* Header */
header{flex-shrink:0;background:var(--surface);border-bottom:1px solid var(--border);
  padding:.6rem 1.25rem;display:flex;align-items:center;justify-content:space-between;height:62px}
.hdr-left h1{font-size:.95rem;font-weight:700;letter-spacing:.02em;color:#e2eaf4}
.hdr-left p{font-size:.6rem;color:var(--muted);margin-top:.15rem;letter-spacing:.06em;text-transform:uppercase}
.hdr-contract{background:var(--panel);border:1px solid var(--border);border-radius:6px;
  padding:.3rem .8rem;font-size:.7rem;color:var(--muted);display:flex;align-items:center;gap:.4rem}
.arrow{color:var(--green);font-weight:700}
.hdr-controls{display:flex;gap:.4rem}
button{border:1px solid var(--border);background:var(--panel);color:var(--text);
  padding:.35rem .9rem;border-radius:5px;cursor:pointer;font-family:inherit;font-size:.72rem;
  display:inline-flex;align-items:center;gap:.35rem;transition:all .15s}
button:hover:not(:disabled){border-color:var(--blue);color:var(--blue)}
#play-btn{border-color:var(--green);color:var(--green)}
#play-btn:hover:not(:disabled){background:rgba(0,229,160,.08)}
#step-btn{border-color:var(--blue);color:var(--blue)}
#step-btn:hover:not(:disabled){background:rgba(79,172,254,.08)}
#reset-btn{display:none}
button:disabled{opacity:.4;cursor:not-allowed}
/* Main grid */
.main-grid{flex:1;display:grid;grid-template-columns:22% 1fr 22%;min-height:0;
  border-bottom:1px solid var(--border)}
.panel{background:var(--panel);border-right:1px solid var(--border);display:flex;flex-direction:column;min-height:0}
.panel:last-child{border-right:none}
.panel-title{flex-shrink:0;background:var(--surface);border-bottom:1px solid var(--border);
  padding:.35rem .7rem;font-size:.58rem;text-transform:uppercase;letter-spacing:.12em;
  color:var(--muted);font-weight:700}
.panel-content{flex:1;overflow-y:auto;padding:.55rem}
.panel-content::-webkit-scrollbar{width:3px}
.panel-content::-webkit-scrollbar-thumb{background:var(--border)}
/* Narrator bar */
.narrator{flex-shrink:0;background:#060e1c;border-top:2px solid var(--blue);
  height:0;overflow:hidden;transition:height .25s ease;display:flex;flex-direction:column}
.narrator.active{height:148px}
.narrator-top{flex-shrink:0;display:flex;justify-content:space-between;align-items:center;
  padding:.3rem .75rem;border-bottom:1px solid var(--border)}
.narrator-phase-lbl{font-size:.58rem;text-transform:uppercase;letter-spacing:.14em;
  color:var(--blue);font-weight:700}
.narrator-step-info{font-size:.58rem;color:var(--muted)}
.narrator-main{flex:1;display:flex;align-items:flex-start;gap:.75rem;padding:.5rem .75rem}
.narrator-text{flex:1;min-width:0}
.narrator-heading{font-size:.78rem;font-weight:700;color:var(--text);margin-bottom:.2rem}
.narrator-body{font-size:.66rem;color:var(--nbody);line-height:1.55}
#narrator-next{flex-shrink:0;align-self:center;border-color:var(--blue);color:var(--blue);
  background:rgba(79,172,254,.08);white-space:nowrap;font-size:.72rem;padding:.4rem 1rem}
#narrator-next:disabled{opacity:.35;cursor:not-allowed}
/* Violations */
.violations-section{flex-shrink:0;background:var(--bg);height:190px;display:flex;flex-direction:column}
.viol-header{flex-shrink:0;background:var(--surface);border-top:2px solid var(--border);
  padding:.35rem .75rem;display:flex;align-items:center;gap:.75rem}
.viol-title{font-size:.58rem;text-transform:uppercase;letter-spacing:.12em;color:var(--muted);font-weight:700}
.viol-count-wrap{display:flex;align-items:center;gap:.3rem;font-size:.62rem;color:var(--muted)}
.viol-count{background:var(--red);color:#fff;border-radius:9999px;
  padding:.1rem .4rem;font-size:.62rem;font-weight:700;min-width:1.3rem;text-align:center;
  transition:transform .2s}
.viol-count.bump{transform:scale(1.45)}
.viol-cards{flex:1;overflow-x:auto;overflow-y:hidden;display:flex;align-items:stretch;
  gap:.45rem;padding:.45rem .75rem;white-space:nowrap}
.viol-card{display:inline-flex;flex-direction:column;gap:.2rem;background:var(--panel);
  border:1px solid var(--border);border-radius:5px;padding:.45rem .55rem;
  min-width:230px;max-width:270px;white-space:normal;flex-shrink:0;
  opacity:0;transform:translateY(10px);transition:opacity .3s,transform .3s}
.viol-card.visible{opacity:1;transform:none}
.viol-card.v-critical{border-color:rgba(255,51,85,.5);border-left:3px solid var(--red)}
.viol-card.v-warning{border-color:rgba(255,186,59,.4);border-left:3px solid var(--yellow)}
.vbadge{display:inline-block;font-size:.56rem;font-weight:700;padding:.1rem .3rem;
  border-radius:3px;letter-spacing:.08em;text-transform:uppercase}
.vbadge.critical{background:rgba(255,51,85,.2);color:var(--red)}
.vbadge.warning{background:rgba(255,186,59,.15);color:var(--yellow)}
.vwho{font-size:.6rem;color:var(--muted)}
.vrule{font-size:.64rem;color:var(--blue);margin-top:.12rem;line-height:1.4}
.vdetail{font-size:.62rem;color:var(--text);line-height:1.4}
/* Event cards */
.event-card{background:var(--surface);border:1px solid var(--border);border-left:3px solid var(--border);
  border-radius:4px;padding:.45rem .55rem;margin-bottom:.35rem;
  opacity:0;transform:translateX(-10px);transition:opacity .28s,transform .28s}
.event-card.visible{opacity:1;transform:none}
.event-card.ev-pass{border-left-color:var(--green)}
.event-card.ev-critical{border-left-color:var(--red)}
.event-card.ev-warn{border-left-color:var(--yellow)}
.event-card.ev-pending{border-left-color:var(--blue)}
.ev-head{display:flex;align-items:flex-start;gap:.45rem}
.ev-seq{font-size:.58rem;color:var(--dim);min-width:1.2rem;padding-top:2px;flex-shrink:0}
.ev-body{flex:1;min-width:0}
.ev-type{font-size:.72rem;font-weight:600}
.ev-meta{display:flex;gap:.4rem;margin-top:.12rem}
.ev-user{font-size:.62rem;color:var(--blue);text-transform:capitalize}
.ev-ts{font-size:.62rem;color:var(--muted)}
.ev-payload{display:grid;grid-template-columns:auto 1fr;column-gap:.45rem;row-gap:.06rem;
  margin-top:.28rem;padding:.22rem .38rem;background:rgba(0,0,0,.25);border-radius:3px;
  border:1px solid var(--dim);font-size:.58rem;line-height:1.6}
.pfield{color:var(--muted)}
.pval{color:var(--blue)}
.ev-payload-toggle,.ev-hist-toggle{display:block;width:100%;text-align:left;font-size:.58rem;color:var(--dim);
  background:none;border:none;border-top:1px solid var(--dim);padding:.2rem 0 0;
  margin-top:.22rem;cursor:pointer;font-family:inherit;letter-spacing:.02em;transition:color .12s}
.ev-payload-toggle:hover,.ev-hist-toggle:hover{color:var(--muted)}
.payload-json{display:none;margin-top:.15rem;padding:.3rem .45rem;background:rgba(0,0,0,.3);
  border-radius:3px;border:1px solid var(--dim)}
.payload-json.open{display:block}
.pj-line{font-size:.57rem;line-height:1.72;white-space:pre;overflow:hidden;text-overflow:ellipsis}
.pj-key{color:var(--blue)}.pj-str{color:var(--green)}.pj-num{color:var(--yellow)}
.pj-comment{color:var(--muted);font-style:italic}.pj-brace{color:var(--text)}
.pj-ok{color:var(--green)}.pj-fail{color:var(--red);font-weight:700}
.pj-warn{color:var(--yellow)}.pj-pending{color:var(--blue)}
.ev-history{display:none;margin-top:.18rem;border-radius:3px;overflow:hidden;border:1px solid var(--dim)}
.ev-history.open{display:block}
.eh-row{display:grid;grid-template-columns:1.6rem 1fr auto;gap:.3rem;
  padding:.14rem .35rem;font-size:.58rem;border-bottom:1px solid var(--dim)}
.eh-row:last-child{border-bottom:none}
.eh-row.eh-current{background:rgba(79,172,254,.08)}
.eh-seq{color:var(--dim)}
.eh-event{color:var(--text)}
.eh-ts{color:var(--muted);text-align:right}
/* Check panel */
.check-idle,.state-idle{height:100%;display:flex;align-items:center;justify-content:center;
  color:var(--dim);font-size:.72rem;text-align:center;padding:1rem}
.state-domain-lbl{font-size:.55rem;color:var(--muted);margin-left:.35rem;text-transform:uppercase;letter-spacing:.06em}
.check-hdr{font-size:.58rem;text-transform:uppercase;letter-spacing:.15em;color:var(--muted);font-weight:700;margin-bottom:.45rem}
.check-rule{font-size:.7rem;color:var(--blue);margin-bottom:.65rem;line-height:1.5;
  border-left:2px solid var(--blue);padding-left:.45rem}
.check-evaluating{display:flex;align-items:center;gap:.4rem;color:var(--muted);font-size:.68rem;margin:.4rem 0}
.spinner{width:11px;height:11px;border:2px solid var(--dim);border-top-color:var(--blue);
  border-radius:50%;animation:spin .65s linear infinite;flex-shrink:0}
@keyframes spin{to{transform:rotate(360deg)}}
.lookup-table{border:1px solid var(--border);border-radius:4px;overflow:hidden;margin:.45rem 0}
.lookup-row{display:grid;grid-template-columns:1fr 1fr;border-bottom:1px solid var(--dim)}
.lookup-row:last-child{border-bottom:none}
.lookup-k,.lookup-v{padding:.28rem .45rem;font-size:.65rem}
.lookup-k{color:var(--muted);background:rgba(0,0,0,.2)}
.lookup-v{color:var(--text)}
.lookup-v.ok{color:var(--green)}
.lookup-v.fail{color:var(--red);font-weight:700}
.lookup-v.warn{color:var(--yellow)}
.check-result{border-radius:5px;padding:.55rem .7rem;margin-top:.45rem;border:1px solid}
.result-text{font-size:.82rem;font-weight:700;margin-bottom:.2rem}
.result-detail{font-size:.65rem;line-height:1.5}
.result-pass{border-color:rgba(0,229,160,.4);background:rgba(0,229,160,.06)}
.result-pass .result-text{color:var(--green)}
.result-fail{border-color:rgba(255,51,85,.5);background:rgba(255,51,85,.1);animation:shake .4s ease}
.result-fail .result-text{color:var(--red)}
.result-warn{border-color:rgba(255,186,59,.4);background:rgba(255,186,59,.07)}
.result-warn .result-text{color:var(--yellow)}
.result-pending{border-color:rgba(79,172,254,.3);background:rgba(79,172,254,.06)}
.result-pending .result-text{color:var(--blue)}
@keyframes shake{0%,100%{transform:translateX(0)}20%{transform:translateX(-5px)}40%{transform:translateX(5px)}60%{transform:translateX(-3px)}80%{transform:translateX(3px)}}
.panel-violated{animation:bflash .55s ease}
@keyframes bflash{0%,100%{box-shadow:none}50%{box-shadow:0 0 0 2px var(--red),inset 0 0 35px rgba(255,51,85,.12)}}
.complete-grid{display:grid;grid-template-columns:1fr 1fr;gap:.45rem;margin:.65rem 0}
.csstat{background:var(--surface);border:1px solid var(--border);border-radius:4px;padding:.55rem;text-align:center}
.csval{font-size:1.5rem;font-weight:700;line-height:1}
.cslbl{font-size:.58rem;text-transform:uppercase;letter-spacing:.08em;color:var(--muted);margin-top:.15rem}
.cs-critical .csval{color:var(--red)}.cs-warn .csval{color:var(--yellow)}.cs-pass .csval{color:var(--green)}.cs-total .csval{color:var(--text)}
.complete-note{font-size:.65rem;color:var(--muted);line-height:1.6;margin-top:.45rem;
  border-top:1px solid var(--border);padding-top:.45rem}
/* State panel */
.state-card{background:var(--surface);border:1px solid var(--border);border-radius:4px;margin-bottom:.35rem;overflow:hidden}
.state-user{background:var(--panel);border-bottom:1px solid var(--border);padding:.28rem .45rem;
  font-size:.68rem;font-weight:700;text-transform:capitalize}
.state-row{display:grid;grid-template-columns:1fr 1fr;border-bottom:1px solid var(--dim)}
.state-row:last-child{border-bottom:none}
.state-k,.state-v{padding:.22rem .45rem;font-size:.62rem}
.state-k{color:var(--muted)}
.state-v.ok{color:var(--green)}.state-v.fail{color:var(--red)}.state-v.warn{color:var(--yellow)}.state-v.none{color:var(--dim)}
/* Flash overlay */
#violation-flash{position:fixed;inset:0;background:rgba(255,51,85,0);pointer-events:none;
  transition:background .12s;z-index:100}
#violation-flash.active{background:rgba(255,51,85,.16)}
/* Scenario summary bar */
.scenario-bar{flex-shrink:0;background:var(--surface);border-top:1px solid var(--border);
  display:flex;flex-direction:column;padding:.25rem 1.25rem;font-size:.65rem;gap:.1rem}
.sc-row{display:flex;align-items:center;gap:.6rem;padding:.1rem 0}
.sc-id{color:var(--blue);font-weight:700;letter-spacing:.04em;text-transform:uppercase}
.sc-name{color:var(--text);flex:1;min-width:0;overflow:hidden;white-space:nowrap;text-overflow:ellipsis}
.sc-domain{color:var(--muted);font-size:.6rem;text-transform:uppercase;letter-spacing:.08em;flex-shrink:0;min-width:8rem}
.sc-expected{color:var(--muted);flex-shrink:0}
.sc-sep{color:var(--dim);flex-shrink:0}
.sc-result{font-weight:700;font-size:.7rem;letter-spacing:.02em;transition:color .2s;flex-shrink:0;min-width:9rem;text-align:right}
.sc-result.pass{color:var(--green)}
.sc-result.fail{color:var(--red)}
.sc-result.pending{color:var(--muted);font-weight:400}
/* Help button */
#help-btn{border-color:var(--muted);color:var(--muted);padding:0;font-size:.75rem;
  width:1.85rem;height:1.85rem;border-radius:50%;justify-content:center;flex-shrink:0}
#help-btn:hover:not(:disabled){border-color:var(--blue);color:var(--blue)}
/* Modal */
#modal-overlay{position:fixed;inset:0;background:rgba(0,0,0,.72);z-index:200;
  display:flex;align-items:center;justify-content:center;
  opacity:0;pointer-events:none;transition:opacity .2s}
#modal-overlay.open{opacity:1;pointer-events:all}
#modal{background:var(--panel);border:1px solid var(--border);border-radius:8px;
  width:min(680px,90vw);max-height:82vh;display:flex;flex-direction:column;
  box-shadow:0 24px 64px rgba(0,0,0,.6);transform:translateY(12px);transition:transform .2s}
#modal-overlay.open #modal{transform:translateY(0)}
#modal-head{flex-shrink:0;display:flex;align-items:center;justify-content:space-between;
  padding:.65rem 1rem;border-bottom:1px solid var(--border);background:var(--surface);
  border-radius:8px 8px 0 0}
#modal-title{font-size:.82rem;font-weight:700;color:#e2eaf4;letter-spacing:.02em}
#modal-close{border:none;background:none;color:var(--muted);font-size:1.1rem;
  cursor:pointer;padding:.15rem .45rem;border-radius:4px;line-height:1;transition:color .15s}
#modal-close:hover{color:var(--text)}
#modal-body{flex:1;overflow-y:auto;padding:1.1rem 1.2rem;font-size:.7rem;
  line-height:1.7;color:var(--text)}
#modal-body::-webkit-scrollbar{width:3px}
#modal-body::-webkit-scrollbar-thumb{background:var(--border)}
.modal-section{margin-bottom:1rem}
.modal-section:last-child{margin-bottom:0}
.modal-h{font-size:.72rem;font-weight:700;color:var(--blue);text-transform:uppercase;
  letter-spacing:.1em;margin-bottom:.4rem}
.modal-table{width:100%;border-collapse:collapse;font-size:.67rem;margin-top:.35rem}
.modal-table td{padding:.28rem .5rem;border:1px solid var(--dim);vertical-align:top}
.modal-table tr td:first-child{color:var(--muted);background:rgba(0,0,0,.18);
  white-space:nowrap;font-weight:600}
.modal-pass{color:var(--green);font-weight:700}
.modal-fail{color:var(--red);font-weight:700}
.modal-warn{color:var(--yellow);font-weight:700}
.modal-chain{display:flex;align-items:center;gap:.5rem;font-size:.78rem;
  color:var(--muted);margin:.35rem 0}
.modal-chain .arrow{color:var(--green);font-weight:700}
.modal-chain .window{font-size:.62rem;color:var(--dim);margin-left:.25rem}
/* Speed button */
#speed-btn{min-width:2.6rem;font-variant-numeric:tabular-nums}
/* Print button — hidden until run completes */
#print-btn{display:none;border-color:var(--muted);color:var(--muted)}
#print-btn:hover:not(:disabled){border-color:var(--text);color:var(--text)}
/* Scenario jump — make rows clickable */
.sc-row{cursor:pointer;border-radius:3px;transition:background .12s}
.sc-row:hover{background:rgba(79,172,254,.07)}
.sc-jump-hint{font-size:.57rem;color:var(--blue);opacity:0;transition:opacity .15s;flex-shrink:0;padding-right:.1rem}
.sc-row:hover .sc-jump-hint{opacity:1}
/* Completion scenario summary */
.sc-summary-grid{display:flex;flex-direction:column;gap:.22rem;margin-top:.5rem}
.sc-summary-card{display:flex;align-items:center;gap:.5rem;padding:.28rem .45rem;background:var(--panel);border:1px solid var(--border);border-radius:4px;border-left:3px solid var(--border);font-size:.62rem}
.sc-summary-card.pass{border-left-color:var(--green)}
.sc-summary-card.fail{border-left-color:var(--red)}
.sc-summary-id{color:var(--blue);font-weight:700;min-width:2.2rem;flex-shrink:0}
.sc-summary-name{flex:1;color:var(--text)}
.sc-summary-domain{color:var(--muted);font-size:.57rem;min-width:5rem;flex-shrink:0}
.sc-summary-result{font-weight:700;white-space:nowrap;flex-shrink:0}
.sc-summary-result.pass{color:var(--green)}
.sc-summary-result.fail{color:var(--red)}
/* ── Story / Technical mode ─────────────────────────────────────────────── */
body:not(.technical-mode) .technical-only{display:none!important}
body.technical-mode .story-only{display:none!important}
#mode-btn{font-size:.68rem;letter-spacing:.01em}
/* Story center panel */
.story-panel{display:flex;flex-direction:column;gap:.52rem}
.story-tag{font-size:.57rem;text-transform:uppercase;letter-spacing:.1em;color:var(--blue);font-weight:700}
.story-poc-domain{font-size:.56rem;color:var(--muted);font-style:italic;margin-top:.05rem;line-height:1.4}
.story-event-box{background:var(--surface);border:1px solid var(--border);border-radius:4px;padding:.4rem .55rem}
.story-ev-name{font-size:.88rem;font-weight:700;color:var(--text);margin-bottom:.12rem}
.story-ev-meta{font-size:.62rem;color:var(--muted)}.story-ev-meta span{color:var(--text);font-weight:600}
.story-block{display:flex;flex-direction:column;gap:.18rem}
.story-block-lbl{font-size:.56rem;text-transform:uppercase;letter-spacing:.09em;color:var(--muted);font-weight:700}
.story-block-body{font-size:.7rem;line-height:1.65;color:var(--nbody)}
.story-verdict{border-radius:4px;padding:.45rem .6rem;border:1px solid}
.story-verdict.pass{border-color:rgba(0,229,160,.4);background:rgba(0,229,160,.06)}
.story-verdict.fail{border-color:rgba(255,51,85,.5);background:rgba(255,51,85,.1)}
.story-verdict.warn{border-color:rgba(255,186,59,.4);background:rgba(255,186,59,.07)}
.story-verdict.pending{border-color:rgba(79,172,254,.3);background:rgba(79,172,254,.06)}
.story-verdict-title{font-size:.77rem;font-weight:700;margin-bottom:.18rem}
.story-verdict.pass .story-verdict-title{color:var(--green)}
.story-verdict.fail .story-verdict-title{color:var(--red)}
.story-verdict.warn .story-verdict-title{color:var(--yellow)}
.story-verdict.pending .story-verdict-title{color:var(--blue)}
.story-verdict-body{font-size:.67rem;line-height:1.6;color:var(--nbody)}
"#;

/// The script: what the events are called in plain words.
pub const JS_STORY: &'static str = r#"
const WINDOW_SECS = 300;

// ── Story mode lookup tables ───────────────────────────────────────────────
const PLAIN_EVENTS = {
  LoginSuccess:        'Login successful',
  AuthTokenIssued:     'Access token issued',
  AuthTokenUsed:       'Access token used',
  RoleAssigned:        'Role granted',
  AdminActionTaken:    'Admin action taken',
  WorkloadScheduled:   'Workload declared',
  ThermalReading:      'Temperature reading',
  StateValidated:      'System state verified',
  AutomationTriggered: 'Automation action fired',
};
const PLAIN_FIELDS = {
  last_login:        'Last login',
  token_issued:      'Token issued',
  token_used:        'Token used',
  role_assigned_at:  'Role granted at',
  admin_action:      'Admin action taken',
  last_workload_at:  'Workload declared at',
  last_temp:         'Temperature',
  bias_count:        'Unexplained high readings',
  last_validated_at: 'State last verified',
  trigger_count:     'Triggers since last check',
  last_trigger_at:   'Last action at',
};
const PLAIN_DOMAINS = { ControlPlane: 'Control Plane' };

// Maps scenario domain to the exact POC document domain label (§3)
const POC_DOMAINS = {
  'ControlPlane': 'Domain\u00a01\u20132: Identity & Privileged Access / Cloud Control Plane Integrity',
  'Thermal':      'Domain\u00a03: Workload\u2013Thermal Equilibrium (OT-Proxy)',
  'Automation':   'Domain\u00a04: Automation Amplification Guard',
  'Multi-Domain': 'Domains\u00a01\u20134: Cross-Domain Baseline Validation',
};

function storyCenter(step, phaseIdx){
  const evName   = PLAIN_EVENTS[step.event] || (step.is_deferred ? 'End of stream check' : step.event);
  const scenario = SCENARIOS.find(s => s.label === step.group_label);
  const domName  = scenario ? (PLAIN_DOMAINS[scenario.domain] || scenario.domain) : '';
  const scTag    = scenario ? `Scenario ${scenario.id} \u00b7 ${domName} Domain` : step.group_label;
  const pocDom   = scenario ? (POC_DOMAINS[scenario.domain] || '') : '';
  let h = `<div class="story-panel">
    <div class="story-tag">${scTag}</div>
    ${pocDom ? `<div class="story-poc-domain">POC \u00a7 ${pocDom}</div>` : ''}
    <div class="story-event-box">
      <div class="story-ev-name">${evName}</div>
      <div class="story-ev-meta">Entity: <span>${step.user}</span></div>
    </div>`;
  if (step.phases[0])
    h += `<div class="story-block">
      <div class="story-block-lbl">What happened</div>
      <div class="story-block-body">${step.phases[0].body}</div>
    </div>`;
  if (phaseIdx >= 1 && step.phases[1])
    h += `<div class="story-block">
      <div class="story-block-lbl">POC Invariant</div>
      <div class="story-block-body">${step.phases[1].body}</div>
    </div>`;
  if (phaseIdx >= 2 && step.phases[2]){
    const r = step.check.result;
    const vCls   = r==='pass'?'pass':r==='pending'?'pending':r==='warn'?'warn':'fail';
    const vTitle = r==='pass'   ? '\u2714 All clear'
                 : r==='pending'? '\u23f3 Pending'
                 : r==='warn'   ? '\u26a0\ufe0f Warning'
                 : '\u2718 Issue detected';
    h += `<div class="story-verdict ${vCls}">
      <div class="story-verdict-title">${vTitle}</div>
      <div class="story-verdict-body">${step.phases[2].body}</div>
    </div>`;
  }
  h += `</div>`;
  return h;
}

"#;

/// The script: going through the steps.
pub const JS_PLAYBACK: &'static str = r#"// Populate scenario bar from SCENARIOS metadata
(function(){
  const bar = document.getElementById('sc-bar');
  SCENARIOS.forEach(sc => {
    const row = document.createElement('div');
    row.className = 'sc-row';
    row.innerHTML =
      '<span class="sc-id">Scenario ' + sc.id + '</span>' +
      '<span class="sc-sep">\u00b7</span>' +
      '<span class="sc-name">' + sc.name + '</span>' +
      '<span class="sc-sep">\u00b7</span>' +
      '<span class="sc-domain">' + sc.domain + ' Domain</span>' +
      '<span class="sc-sep">\u00b7</span>' +
      '<span class="sc-expected">expected: ' + sc.expected + ' variance' + (sc.expected!==1?'s':'') + '</span>' +
      '<span class="sc-result pending" id="sc-result-' + sc.id + '">awaiting run</span>' +
      '<span class="sc-jump-hint">\u25b6 run</span>';
    row.addEventListener('click', () => jumpToScenario(sc.id));
    bar.appendChild(row);
  });
})();

let running = false;
let stepMode = false;
let stepResolve = null;
let activeSteps = [];
let speedMult = 1;
const SPEED_CYCLE = [1, 2, 3, 0.5];
let speedCycleIdx = 0;

function sleep(ms){ return new Promise(r => setTimeout(r, ms/speedMult)); }

function waitForStep(){
  const btn = document.getElementById('narrator-next');
  btn.disabled = false;
  return new Promise(resolve => { stepResolve = resolve; });
}

document.getElementById('narrator-next').addEventListener('click', () => {
  if (stepResolve){ stepResolve(); stepResolve = null;
    document.getElementById('narrator-next').disabled = true; }
});

async function startDemo(useStepMode, startIdx = 0){
  if (running) return;
  running = true; stepMode = useStepMode;
  activeSteps = STEPS.slice(startIdx);
  document.getElementById('play-btn').disabled = true;
  document.getElementById('step-btn').disabled = true;
  document.getElementById('reset-btn').style.display = 'inline-flex';
  if (stepMode) document.getElementById('narrator').classList.add('active');
  resetAll();
  for (const step of activeSteps) await processStep(step);
  showComplete();
  running = false;
}

async function jumpToScenario(scId){
  if (running) return;
  const sc = SCENARIOS.find(s => s.id === scId);
  if (!sc) return;
  const startIdx = STEPS.findIndex(s => s.group_label === sc.label);
  if (startIdx < 0) return;
  startDemo(false, startIdx);
}

async function processStep(step){
  const phases = step.phases;
  if (stepMode){
    // Phase 1 — event arrives
    addEventCard(step);
    showNarrator(step, phases[0], 1);
    await waitForStep();
    // Phase 2 — contract lookup (skip spinner, go straight to table)
    showPhase2(step);
    showNarrator(step, phases[1], 2);
    await waitForStep();
    // Phase 3 — result + violations + state
    showPhase3(step);
    if (step.variances.length > 0){ flashViolation(); for (const v of step.variances) addViolCard(step, v); }
    updateState(step);
    showNarrator(step, phases[2], 3);
    await waitForStep();
  } else {
    addEventCard(step); await sleep(170);
    showPhase1(step);   await sleep(820);
    showPhase2(step);   await sleep(820);
    showPhase3(step);
    if (step.variances.length > 0){ await sleep(230); flashViolation(); await sleep(420); for (const v of step.variances) addViolCard(step, v); }
    await sleep(230); updateState(step);
    const d = {pass:700,pending:600,fail:1400,warn:1050};
    await sleep(d[step.check.result] || 800);
  }
}

function showNarrator(step, phase, num){
  document.getElementById('narrator-phase-lbl').textContent =
    `Phase ${num} of ${step.phases.length} — ${phase.label}`;
  document.getElementById('narrator-step-info').textContent =
    `Event ${step.seq} of ${STEPS.length} · ${step.group_label}`;
  document.getElementById('narrator-heading').textContent = phase.heading;
  document.getElementById('narrator-body').textContent   = phase.body;
}

"#;

/// The script: the cards of events, checks and variances.
pub const JS_CARDS: &'static str = r#"function renderPayloadJson(step){
  function kv(key, valHtml){
    return `<div class="pj-line">  <span class="pj-key">"${key}"</span>: ${valHtml},</div>`;
  }
  function sval(v){ return `<span class="pj-str">"${v}"</span>`; }
  function nval(v){ return `<span class="pj-num">${v}</span>`; }
  function cmt(txt){ return `<div class="pj-line">  <span class="pj-comment">// ${txt}</span></div>`; }
  function stval(v, status){
    const cls = status==='ok'?'pj-ok':status==='fail'?'pj-fail':status==='warn'?'pj-warn':'pj-pending';
    return `<span class="${cls}">"${v}"</span>`;
  }
  const out = [];
  out.push(`<div class="pj-line"><span class="pj-brace">{</span></div>`);

  if (step.is_deferred){
    out.push(kv('event',   sval('FINALIZE')));
    out.push(kv('identity', sval(step.user)));
    out.push(kv('trigger', sval('stream_end')));
  } else {
    out.push(kv('event',     sval(step.event)));
    out.push(kv('identity',  sval(step.user)));
    out.push(kv('timestamp', nval(step.ts)));
    if (step.event === 'LoginSuccess'){
      out.push(kv('window_opens',  nval(step.ts)));
      out.push(kv('window_closes', nval(step.ts + 300)));
    }
  }

  const skip = new Set(['user','event']);
  const ctxRows = step.check.lookup.filter(([k]) => !skip.has(k));
  if (ctxRows.length > 0){
    out.push(cmt('engine evaluation'));
    for (const [k, v, status] of ctxRows){
      const isNum = /^\d+$/.test(v);
      out.push(kv(k, isNum ? nval(v) : stval(v, status)));
    }
  }

  const rCls = step.check.result==='pass'?'pj-ok':step.check.result==='fail'?'pj-fail':step.check.result==='warn'?'pj-warn':'pj-pending';
  out.push(cmt('verdict'));
  out.push(`<div class="pj-line">  <span class="pj-key">"result"</span>: <span class="${rCls}">"${step.check.result_text}"</span></div>`);
  out.push(`<div class="pj-line"><span class="pj-brace">}</span></div>`);
  return out.join('');
}

function togglePayload(btn){
  const json = btn.nextElementSibling;
  const open = json.classList.toggle('open');
  btn.textContent = (open ? '▼' : '▶') + btn.textContent.slice(1);
}

function toggleHistory(btn){
  const hist = btn.nextElementSibling;
  const open = hist.classList.toggle('open');
  btn.textContent = (open ? '▼' : '▶') + btn.textContent.slice(1);
}

function addEventCard(step){
  const stream = document.getElementById('event-stream');
  const r = step.variances.length > 0
    ? (step.variances.some(v => v.severity === 'critical') ? 'ev-critical' : 'ev-warn')
    : (step.check.result === 'pending' ? 'ev-pending' : 'ev-pass');
  const card = document.createElement('div');
  card.className = 'event-card ' + r;

  // Compact payload grid (always visible)
  const fields = step.is_deferred
    ? [['event','"FINALIZE"'],['user',`"${step.user}"`],['trigger','"stream_end"']]
    : [['event',`"${step.event}"`],['user',`"${step.user}"`],['ts',step.ts]];
  const payloadHtml = fields
    .map(([k,v]) => `<span class="pfield">${k}:</span><span class="pval">${v}</span>`)
    .join('');

  // History rows for this identity
  const hist = step.history;
  const histHtml = hist.map((h, i) => {
    const cur = (i === hist.length - 1) && !step.is_deferred;
    const tsLabel = h.ts === 9999 ? 'end' : `t=${h.ts}s`;
    return `<div class="eh-row${cur?' eh-current':''}">` +
      `<span class="eh-seq">#${h.seq}</span>` +
      `<span class="eh-event">${h.event}</span>` +
      `<span class="eh-ts">${tsLabel}</span></div>`;
  }).join('');

  const tsDisplay = step.is_deferred ? 'stream-end' : step.ts + 's';
  const ctxCount  = step.check.lookup.filter(([k]) => !['user','event'].includes(k)).length
                  + (step.event === 'LoginSuccess' ? 2 : 0) + 3; // base + ctx + result

  const plainEvName = PLAIN_EVENTS[step.event] || (step.is_deferred ? 'End of stream check' : step.event);
  card.innerHTML =
    `<div class="ev-head">` +
      `<div class="ev-seq">#${step.seq}</div>` +
      `<div class="ev-body">` +
        `<div class="ev-type technical-only">${step.is_deferred ? '[FINALIZE]' : step.event}</div>` +
        `<div class="ev-type story-only">${plainEvName}</div>` +
        `<div class="ev-meta">` +
          `<span class="ev-user">${step.user}</span>` +
          `<span class="ev-ts">t=${tsDisplay}</span>` +
        `</div>` +
      `</div>` +
    `</div>` +
    `<div class="ev-payload technical-only">${payloadHtml}</div>` +
    `<button class="ev-payload-toggle technical-only" onclick="togglePayload(this)">▶ { } payload · ${ctxCount} fields</button>` +
    `<div class="payload-json">${renderPayloadJson(step)}</div>` +
    `<button class="ev-hist-toggle technical-only" onclick="toggleHistory(this)">▶ ${step.user} · ${hist.length} event${hist.length!==1?'s':''}</button>` +
    `<div class="ev-history">${histHtml}</div>`;

  stream.appendChild(card);
  requestAnimationFrame(() => card.classList.add('visible'));
  stream.scrollTop = stream.scrollHeight;
}

function showPhase1(step){
  document.getElementById('check-panel').innerHTML =
    `<div class="technical-only"><div class="check-hdr">INVARIANT CHECK</div>` +
    `<div class="check-rule">${step.check.rule}</div>` +
    `<div class="check-evaluating"><div class="spinner"></div><span>Evaluating event...</span></div></div>` +
    `<div class="story-only">${storyCenter(step, 0)}</div>`;
}

function showPhase2(step){
  const rows = step.check.lookup.map(([k,v,s]) =>
    `<div class="lookup-row"><span class="lookup-k">${k}</span><span class="lookup-v ${s}">${v}</span></div>`
  ).join('');
  document.getElementById('check-panel').innerHTML =
    `<div class="technical-only"><div class="check-hdr">INVARIANT CHECK</div>` +
    `<div class="check-rule">${step.check.rule}</div>` +
    `<div class="lookup-table">${rows}</div>` +
    `<div class="check-evaluating"><div class="spinner"></div><span>Evaluating result...</span></div></div>` +
    `<div class="story-only">${storyCenter(step, 1)}</div>`;
}

function showPhase3(step){
  const r = step.check.result;
  const cls = r==='pass'?'result-pass':r==='pending'?'result-pending':r==='warn'?'result-warn':'result-fail';
  const rows = step.check.lookup.map(([k,v,s]) =>
    `<div class="lookup-row"><span class="lookup-k">${k}</span><span class="lookup-v ${s}">${v}</span></div>`
  ).join('');
  const panel = document.getElementById('check-panel');
  panel.innerHTML =
    `<div class="technical-only"><div class="check-hdr">INVARIANT CHECK</div>` +
    `<div class="check-rule">${step.check.rule}</div>` +
    `<div class="lookup-table">${rows}</div>` +
    `<div class="check-result ${cls}"><div class="result-text">${step.check.result_text}</div>` +
    `<div class="result-detail">${step.check.result_detail}</div></div></div>` +
    `<div class="story-only">${storyCenter(step, 2)}</div>`;
  if (r === 'fail'){
    panel.classList.remove('panel-violated');
    void panel.offsetWidth;
    panel.classList.add('panel-violated');
    setTimeout(() => panel.classList.remove('panel-violated'), 600);
  }
}

function flashViolation(){
  const el = document.getElementById('violation-flash');
  el.classList.add('active');
  setTimeout(() => el.classList.remove('active'), 480);
  const c = document.getElementById('viol-count');
  c.textContent = (parseInt(c.textContent)||0) + 1;
  c.classList.remove('bump'); void c.offsetWidth; c.classList.add('bump');
  setTimeout(() => c.classList.remove('bump'), 280);
}

function addViolCard(step, v){
  const log = document.getElementById('viol-cards');
  const card = document.createElement('div');
  card.className = `viol-card v-${v.severity}`;
  card.innerHTML = `
    <div style="display:flex;justify-content:space-between;align-items:center">
      <span class="vbadge ${v.severity}">${v.severity}</span>
      <span class="vwho">${step.user} · t=${step.is_deferred?'end':step.ts+'s'}</span>
    </div>
    <div class="vrule technical-only">${v.rule}</div>
    <div class="vdetail">${v.detail}</div>`;
  log.appendChild(card);
  requestAnimationFrame(() => card.classList.add('visible'));
  log.scrollLeft = log.scrollWidth;
}

"#;

/// The script: what is known, the summary and the controls.
pub const JS_STATUS: &'static str = r#"function updateState(step){
  const panel    = document.getElementById('state-panel');
  const entities = Object.keys(step.state).sort();
  panel.innerHTML = entities.map(u => {
    const s = step.state[u];
    const rows = s.fields.map(([k,v,cls]) =>
      `<div class="state-row">` +
      `<span class="state-k technical-only">${k}</span>` +
      `<span class="state-k story-only">${PLAIN_FIELDS[k]||k}</span>` +
      `<span class="state-v ${cls}">${v}</span></div>`
    ).join('');
    const domStory = PLAIN_DOMAINS[s.domain] || s.domain;
    return `<div class="state-card">` +
      `<div class="state-user">${u}` +
      `<span class="state-domain-lbl technical-only">[${s.domain}]</span>` +
      `<span class="state-domain-lbl story-only">[${domStory}]</span></div>` +
      rows +
      `</div>`;
  }).join('');
}

function updateScenarioResult(){
  SCENARIOS.forEach(sc => {
    const scSteps = activeSteps.filter(s => s.group_label === sc.label);
    const el      = document.getElementById('sc-result-' + sc.id);
    if(!el) return;
    if(scSteps.length === 0) return; // scenario not run this session — leave as awaiting
    const actual = scSteps.reduce((n,s) => n + s.variances.length, 0);
    if(actual === sc.expected){
      el.textContent = '\u2714 PASS \u2014 ' + actual + ' variance' + (actual!==1?'s':'');
      el.className = 'sc-result pass';
    } else {
      el.textContent = '\u2718 FAIL \u2014 expected ' + sc.expected + ', got ' + actual;
      el.className = 'sc-result fail';
    }
  });
}

function showComplete(){
  document.getElementById('print-btn').style.display = 'inline-flex';
  updateScenarioResult();
  const crit  = activeSteps.reduce((n,s) => n + s.variances.filter(v => v.severity==='critical').length, 0);
  const warn  = activeSteps.reduce((n,s) => n + s.variances.filter(v => v.severity==='warning').length, 0);
  const clean = activeSteps.filter(s => s.variances.length === 0).length;
  const last  = activeSteps[activeSteps.length - 1];
  const entityCount = last ? Object.keys(last.state).length : 0;
  const scCards = SCENARIOS.map(sc => {
    const scSteps = activeSteps.filter(s => s.group_label === sc.label);
    if(scSteps.length === 0) return '';
    const actual = scSteps.reduce((n,s) => n + s.variances.length, 0);
    const passed = actual === sc.expected;
    const cls    = passed ? 'pass' : 'fail';
    return `<div class="sc-summary-card ${cls}">` +
      `<span class="sc-summary-id">Scenario ${sc.id}</span>` +
      `<span class="sc-summary-name">${sc.name}</span>` +
      `<span class="sc-summary-domain">${sc.domain}</span>` +
      `<span class="sc-summary-result ${cls}">${passed?'\u2714 PASS':'\u2718 FAIL'} \u00b7 ${actual} violation${actual!==1?'s':''}</span>` +
      `</div>`;
  }).filter(Boolean).join('');
  document.getElementById('check-panel').innerHTML =
    `<div class="check-hdr">ENGINE COMPLETE</div>` +
    `<div class="complete-grid">` +
      `<div class="csstat cs-total"><div class="csval">${activeSteps.length}</div><div class="cslbl">Events</div></div>` +
      `<div class="csstat cs-critical"><div class="csval">${crit}</div><div class="cslbl">Critical</div></div>` +
      `<div class="csstat cs-warn"><div class="csval">${warn}</div><div class="cslbl">Warnings</div></div>` +
      `<div class="csstat cs-pass"><div class="csval">${clean}</div><div class="cslbl">Clean</div></div>` +
    `</div>` +
    `<div class="complete-note">${crit} critical violation${crit!==1?'s':''} proven across ${entityCount} identities. ` +
    `Every detection is a deterministic causal proof \u2014 not a score, not a threshold, not a model.</div>` +
    (scCards ? `<div class="sc-summary-grid">${scCards}</div>` : '');
}

function resetAll(){
  document.getElementById('print-btn').style.display = 'none';
  document.getElementById('event-stream').innerHTML = '';
  document.getElementById('check-panel').innerHTML  = '<div class="check-idle">Waiting for events...</div>';
  document.getElementById('state-panel').innerHTML  = '<div class="state-idle">State will appear as events are processed</div>';
  document.getElementById('viol-cards').innerHTML   = '';
  document.getElementById('viol-count').textContent = '0';
  SCENARIOS.forEach(sc => {
    const el = document.getElementById('sc-result-' + sc.id);
    if(!el) return;
    el.textContent = 'awaiting run';
    el.className   = 'sc-result pending';
  });
}

document.getElementById('play-btn').addEventListener('click',  () => startDemo(false));
document.getElementById('step-btn').addEventListener('click',  () => startDemo(true));
document.getElementById('speed-btn').addEventListener('click', () => {
  speedCycleIdx = (speedCycleIdx + 1) % SPEED_CYCLE.length;
  speedMult = SPEED_CYCLE[speedCycleIdx];
  document.getElementById('speed-btn').textContent = speedMult + '\u00d7';
});
document.getElementById('reset-btn').addEventListener('click', () => {
  running = false; stepMode = false;
  document.getElementById('narrator').classList.remove('active');
  document.getElementById('play-btn').disabled = false;
  document.getElementById('step-btn').disabled = false;
  document.getElementById('reset-btn').style.display = 'none';
  resetAll();
});
document.getElementById('print-btn').addEventListener('click', printReport);
document.getElementById('mode-btn').addEventListener('click', () => {
  const isTechnical = document.body.classList.toggle('technical-mode');
  document.getElementById('mode-btn').textContent = isTechnical ? '\ud83d\udcd6 Story' : '\ud83d\udd2c Technical';
});

function printReport(){
  const now   = new Date().toLocaleString();
  const crit  = activeSteps.reduce((n,s) => n + s.variances.filter(v => v.severity==='critical').length, 0);
  const warn  = activeSteps.reduce((n,s) => n + s.variances.filter(v => v.severity==='warning').length, 0);

  const scRows = SCENARIOS.map(sc => {
    const scSteps = activeSteps.filter(s => s.group_label === sc.label);
    if(scSteps.length === 0) return '';
    const actual = scSteps.reduce((n,s) => n + s.variances.length, 0);
    const passed = actual === sc.expected;
    return `<tr><td><strong>Scenario ${sc.id}</strong></td><td>${sc.name}</td><td>${sc.domain}</td>` +
      `<td style="text-align:center">${sc.expected}</td><td style="text-align:center">${actual}</td>` +
      `<td class="${passed?'pass':'fail'}">${passed?'\u2714 PASS':'\u2718 FAIL'}</td></tr>`;
  }).filter(Boolean).join('');

  const violRows = activeSteps.flatMap(s => s.variances.map(v =>
    `<tr><td class="${v.severity}">${v.severity.toUpperCase()}</td>` +
    `<td>${s.user}</td><td>t=${s.is_deferred?'end':s.ts+'s'}</td>` +
    `<td>${v.rule}</td><td>${v.detail}</td></tr>`
  )).join('') || `<tr><td colspan="5" style="text-align:center;color:#64748b">No violations detected</td></tr>`;

  const html = `<!DOCTYPE html><html lang="en"><head><meta charset="UTF-8">
<title>Auth Chain Integrity Engine \u2014 POC Report</title>
<style>
body{font-family:'Segoe UI',Arial,sans-serif;font-size:12px;color:#1a1a2e;margin:2cm;line-height:1.55}
h1{font-size:17px;margin:0;color:#0f172a}
h2{font-size:11px;border-bottom:1px solid #e2e8f0;padding-bottom:3px;margin:18px 0 6px;
  color:#334155;text-transform:uppercase;letter-spacing:.07em}
.sub{color:#64748b;font-size:11px;margin:2px 0 2px}
.meta{font-size:10px;color:#94a3b8;margin-bottom:16px;border-bottom:1px solid #f1f5f9;padding-bottom:8px}
.stats{display:flex;gap:24px;margin:8px 0 4px}
.stat-val{font-size:20px;font-weight:700;line-height:1}
.stat-lbl{font-size:9px;text-transform:uppercase;letter-spacing:.05em;color:#64748b}
.crit{color:#dc2626}.warn{color:#d97706}
table{width:100%;border-collapse:collapse;margin-top:6px;font-size:11px}
th{background:#f1f5f9;text-align:left;padding:5px 8px;font-size:10px;
  text-transform:uppercase;letter-spacing:.05em;border:1px solid #e2e8f0}
td{padding:5px 8px;border:1px solid #e2e8f0;vertical-align:top}
tr:nth-child(even) td{background:#f8fafc}
.pass{color:#15803d;font-weight:700}.fail{color:#dc2626;font-weight:700}
.CRITICAL{color:#dc2626;font-weight:700}.WARNING{color:#d97706;font-weight:700}
.tagline{margin-top:20px;padding:10px 12px;background:#f1f5f9;
  border-left:3px solid #3b82f6;font-size:11px;color:#475569}
@media print{body{margin:1.5cm}}
</style></head><body>
<h1>Authentication Chain Integrity Engine</h1>
<div class="sub">Cross-Domain Causal Validation Report \u2014 MediaStream.ai Netsapien\u2122 PILOT POC</div>
<div class="meta">Generated: ${now} &nbsp;\u00b7&nbsp; Environment: Isolated digital twin, software-only, stateless
&nbsp;\u00b7&nbsp; Engine: Deterministic invariant enforcement</div>
<h2>Run Summary</h2>
<div class="stats">
  <div><div class="stat-val">${activeSteps.length}</div><div class="stat-lbl">Events</div></div>
  <div><div class="stat-val crit">${crit}</div><div class="stat-lbl">Critical</div></div>
  <div><div class="stat-val warn">${warn}</div><div class="stat-lbl">Warnings</div></div>
  <div><div class="stat-val">${activeSteps.filter(s=>s.variances.length===0).length}</div><div class="stat-lbl">Clean</div></div>
</div>
<h2>Scenario Results</h2>
<table><thead><tr><th>Scenario</th><th>Name</th><th>Domain</th><th>Expected</th><th>Actual</th><th>Result</th></tr></thead>
<tbody>${scRows}</tbody></table>
<h2>Violations Detected</h2>
<table><thead><tr><th>Severity</th><th>Entity</th><th>Timestamp</th><th>Contract</th><th>Detail</th></tr></thead>
<tbody>${violRows}</tbody></table>
<div class="tagline"><strong>Every violation above is a deterministic causal proof</strong> \u2014 not a risk score,
not a threshold alert, not a model prediction. Each entry traces a broken invariant to a specific event
sequence with a named entity and contract rule.</div>
</body></html>`;

  const w = window.open('', '_blank');
  w.document.write(html);
  w.document.close();
  w.focus();
  w.print();
}

// Modal
(function(){
  const overlay = document.getElementById('modal-overlay');
  const openModal  = () => overlay.classList.add('open');
  const closeModal = () => overlay.classList.remove('open');
  document.getElementById('help-btn').addEventListener('click', openModal);
  document.getElementById('modal-close').addEventListener('click', closeModal);
  overlay.addEventListener('click', e => { if (e.target === overlay) closeModal(); });
  document.addEventListener('keydown', e => { if (e.key === 'Escape') closeModal(); });
  if (!localStorage.getItem('acie_modal_seen')) {
    openModal();
    localStorage.setItem('acie_modal_seen', '1');
  }
})();
"#;

/// The page in front of the styles.
pub const PAGE_TOP: &'static str = r#"<!DOCTYPE html>
<html lang="en">
<head>
  <meta charset="UTF-8">
  <meta name="viewport" content="width=device-width,initial-scale=1">
  <title>Auth Chain Integrity Engine</title>
  <style>"#;

/// The page between the styles and the steps.
pub const PAGE_BODY: &'static str = r#"</style>
</head>
<body>
<div id="violation-flash"></div>

<header>
  <div class="hdr-left">
    <h1>Authentication Chain Integrity Engine</h1>
    <p>Deterministic invariant enforcement</p>
  </div>
  <div class="hdr-controls">
    <button id="play-btn">▶ Play</button>
    <button id="step-btn">⏸ Step Through</button>
    <button id="reset-btn">↺ Reset</button>
    <button id="speed-btn" title="Playback speed">1×</button>
    <button id="print-btn" title="Export findings report">⎙ Report</button>
    <button id="mode-btn" title="Switch view mode">🔬 Technical</button>
    <button id="help-btn" title="About this demo">?</button>
  </div>
</header>

<div id="modal-overlay">
  <div id="modal">
    <div id="modal-head">
      <span id="modal-title">Cross-Domain Causal Validation — POC Demo</span>
      <button id="modal-close" title="Close">✕</button>
    </div>
    <div id="modal-body">
      <div class="modal-section">
        <div class="modal-h">What This Proves</div>
        <p>This POC answers one question: <strong style="color:var(--text)">can a deterministic causal engine detect integrity violations across multiple domains of a sovereign AI platform — with zero false positives and zero model dependency?</strong></p>
        <p style="margin-top:.5rem">The engine watches events arriving in real time and enforces declared rules about what must happen before something else is allowed to happen. When a rule breaks, it doesn't guess — it produces a proof: the exact entity, the exact event, the exact rule that failed, and by how much.</p>
      </div>

      <div class="modal-section">
        <div class="modal-h">The Four Scenarios</div>
        <p style="color:var(--muted);font-size:.65rem;margin-bottom:.45rem">Directly from the POC specification. Scenarios B, C, and D inject violations. Scenario A must produce zero — false positives are a failure.</p>
        <table class="modal-table">
          <tr>
            <td style="white-space:nowrap"><strong style="color:var(--green)">A</strong> · Legitimate Variation</td>
            <td>
              <div style="color:var(--muted);font-size:.63rem;margin-bottom:.2rem">Approved privilege elevation · Authorised workload surge · Declared scheduling shift</div>
              Three domains each perform a fully authorised operation. The engine must pass all of them and produce <strong style="color:var(--green)">zero violations</strong>.
            </td>
            <td style="white-space:nowrap"><span class="modal-pass">✔ 0 violations</span></td>
          </tr>
          <tr>
            <td style="white-space:nowrap"><strong style="color:var(--red)">B</strong> · Privilege Misuse</td>
            <td>
              <div style="color:var(--muted);font-size:.63rem;margin-bottom:.2rem">Credential-valid escalation · Out-of-scope control-plane mutation</div>
              A service acts with no role on record. A second acts after its role expired. Both have valid credentials — but credentials are not authorisation.
            </td>
            <td style="white-space:nowrap"><span class="modal-fail">✘ 2 Critical</span></td>
          </tr>
          <tr>
            <td style="white-space:nowrap"><strong style="color:var(--red)">C</strong> · Silent Scheduler Bias</td>
            <td>
              <div style="color:var(--muted);font-size:.63rem;margin-bottom:.2rem">Sustained rack skew · No declared workload shift</div>
              A rack runs progressively hotter (56°C → 61°C → 64°C) with no workload declaration to explain it. The scheduler is silently biasing load without declaring intent.
            </td>
            <td style="white-space:nowrap"><span class="modal-warn">⚠ 1 Warning</span><br><span class="modal-fail">✘ 2 Critical</span></td>
          </tr>
          <tr>
            <td style="white-space:nowrap"><strong style="color:var(--red)">D</strong> · Automation Amplification</td>
            <td>
              <div style="color:var(--muted);font-size:.63rem;margin-bottom:.2rem">Automated response to incomplete state</div>
              An orchestrator fires three automated remediations on system state that was last validated over 2 hours ago. It cannot know whether its actions are helping or making things worse.
            </td>
            <td style="white-space:nowrap"><span class="modal-warn">⚠ 1 Warning</span><br><span class="modal-fail">✘ 2 Critical</span></td>
          </tr>
        </table>
      </div>

      <div class="modal-section">
        <div class="modal-h">What You're Watching</div>
        <table class="modal-table">
          <tr><td style="white-space:nowrap">Events panel</td><td>The raw event stream as it arrives — each card shows who, what, and when.</td></tr>
          <tr><td style="white-space:nowrap">Center panel</td><td>The causal check in progress — what rule is being tested, what the engine found, and the verdict.</td></tr>
          <tr><td style="white-space:nowrap">Status panel</td><td>Live state of every tracked entity after each event — role assignments, temperatures, validation timestamps.</td></tr>
          <tr><td style="white-space:nowrap">Violation log</td><td>Every detected violation, in order — severity, entity, rule, and the exact proof.</td></tr>
        </table>
      </div>

      <div class="modal-section">
        <div class="modal-h">How to Use</div>
        <ul style="margin:.2rem 0 0 1.2rem;color:var(--nbody);font-size:.68rem;line-height:2">
          <li><strong style="color:var(--green)">▶ Play</strong> — runs all 15 events across all 4 scenarios automatically</li>
          <li><strong style="color:var(--blue)">⏸ Step Through</strong> — pauses at each phase with a plain-language explanation of every check</li>
          <li><strong style="color:var(--text)">Click any scenario</strong> in the bar at the bottom to jump directly to that scenario</li>
          <li><strong style="color:var(--text)">🔬 Technical</strong> — toggle to reveal the full invariant check tables and contract rules</li>
          <li><strong style="color:var(--text)">⎙ Report</strong> — generates a printable summary after a run completes</li>
        </ul>
      </div>
    </div>
  </div>
</div>

<div class="main-grid">
  <div class="panel">
    <div class="panel-title"><span class="technical-only">Event Stream</span><span class="story-only">Events</span></div>
    <div class="panel-content" id="event-stream"></div>
  </div>
  <div class="panel">
    <div class="panel-title"><span class="technical-only">Contract Evaluation</span><span class="story-only">What's Happening</span></div>
    <div class="panel-content" id="check-panel">
      <div class="check-idle">Press ▶ Play or ⏸ Step Through to begin</div>
    </div>
  </div>
  <div class="panel">
    <div class="panel-title"><span class="technical-only">Engine State</span><span class="story-only">System Status</span></div>
    <div class="panel-content" id="state-panel">
      <div class="state-idle">State will appear as events are processed</div>
    </div>
  </div>
</div>

<div class="narrator" id="narrator">
  <div class="narrator-top">
    <span class="narrator-phase-lbl" id="narrator-phase-lbl">Phase 1 of 3</span>
    <span class="narrator-step-info" id="narrator-step-info"></span>
  </div>
  <div class="narrator-main">
    <div class="narrator-text">
      <div class="narrator-heading" id="narrator-heading"></div>
      <div class="narrator-body"    id="narrator-body"></div>
    </div>
    <button id="narrator-next" disabled>Next Phase →</button>
  </div>
</div>

<div class="scenario-bar" id="sc-bar"></div>

<div class="violations-section">
  <div class="viol-header">
    <span class="viol-title"><span class="technical-only">Variance Log</span><span class="story-only">Issues Found</span></span>
    <span class="viol-count-wrap"><span class="technical-only">violations: </span><span class="story-only">issues: </span><span class="viol-count" id="viol-count">0</span></span>
  </div>
  <div class="viol-cards" id="viol-cards"></div>
</div>

<script>
const STEPS="#;

/// The page between the steps and the scenarios.
pub const PAGE_SCENARIOS: &'static str = r#";
const SCENARIOS="#;

/// The page between the scenarios and the script.
pub const PAGE_SCRIPT: &'static str = r#";
"#;

/// The page behind the script.
pub const PAGE_END: &'static str = r#"
</script>
</body>
</html>"#;

/// The script that plays the steps.
pub open spec fn script_text() -> Seq<char> {
    JS_STORY@ + JS_PLAYBACK@ + JS_CARDS@ + JS_STATUS@
}

/// The page that plays the given steps and lists the given scenarios.
pub open spec fn page_text(steps: Seq<char>, scenarios: Seq<char>) -> Seq<char> {
    PAGE_TOP@ + CSS@ + PAGE_BODY@ + steps + PAGE_SCENARIOS@ + scenarios + PAGE_SCRIPT@
        + script_text() + PAGE_END@
}

fn script() -> (r: String)
    ensures
        r@ == script_text(),
{
    JS_STORY.to_owned().concat(JS_PLAYBACK).concat(JS_CARDS).concat(JS_STATUS)
}

/// Writes the page, given the steps and the scenarios as values of a script.
pub fn generate_html(steps_js: &str, scenarios_js: &str) -> (r: String)
    ensures
        r@ == page_text(steps_js@, scenarios_js@),
{
    PAGE_TOP.to_owned().concat(CSS).concat(PAGE_BODY).concat(steps_js).concat(
        PAGE_SCENARIOS,
    ).concat(scenarios_js).concat(PAGE_SCRIPT).concat(script().as_str()).concat(PAGE_END)
}

} // verus!
