use vstd::prelude::*;
use crate::text::push_str;

verus! {

/// Lines 1 to 100 of this segment.
pub const PART_00_00: &'static str = r#"<!DOCTYPE html>
<html lang="en">
<head>
  <meta charset="utf-8">
  <meta name="viewport" content="width=device-width, initial-scale=1">
  <title>{{DEFAULT_TITLE}}</title>
  <link rel="stylesheet" href="https://cdn.jsdelivr.net/npm/xterm@5.3.0/css/xterm.min.css">
  <script src="https://cdn.jsdelivr.net/npm/xterm@5.3.0/lib/xterm.min.js"></script>
  <style>
    :root { --bg:#0d1117; --fg:#c9d1d9; --accent:#58a6ff; --card:#161b22; --border:#30363d; --green:#3fb950; --yellow:#d29922; --red:#f85149; }
    *{margin:0;padding:0;box-sizing:border-box}
    body{font-family:-apple-system,BlinkMacSystemFont,'Segoe UI',sans-serif;background:var(--bg);color:var(--fg)}
    header{display:flex;align-items:center;justify-content:space-between;padding:1rem 2rem;border-bottom:1px solid var(--border)}
    header .brand{color:var(--accent);font-size:1.3rem;font-weight:700}
    .tabs{display:flex;gap:0;border-bottom:1px solid var(--border);padding:0 2rem}
    .tab{padding:.6rem 1.2rem;cursor:pointer;color:#8b949e;border-bottom:2px solid transparent;font-size:.9rem}
    .tab:hover{color:var(--fg)} .tab.active{color:var(--accent);border-bottom-color:var(--accent)}
    .tab-content{display:none;padding:1.5rem 2rem} .tab-content.active{display:block}
    .grid{display:grid;grid-template-columns:repeat(auto-fit,minmax(340px,1fr));gap:1rem}
    .card{background:var(--card);border:1px solid var(--border);border-radius:8px;padding:1.25rem}
    .card h2{color:var(--accent);font-size:1rem;margin-bottom:.75rem;border-bottom:1px solid var(--border);padding-bottom:.5rem}
    .stat{display:flex;justify-content:space-between;padding:.3rem 0}
    .stat .label{color:#8b949e} .stat .value{font-weight:600}
    .ok{color:var(--green)} .warn{color:var(--yellow)} .err{color:var(--red)}
    #issues-list{list-style:none}
    #issues-list li{padding:.3rem 0;border-bottom:1px solid var(--border)}
    #issues-list li:last-child{border-bottom:none}
    .issue-num{color:var(--accent);font-weight:600;margin-right:.5rem}
    .loading{color:#8b949e;font-style:italic;display:inline-flex;align-items:center;gap:.5rem}
    .loading::before{content:'';width:1rem;height:1rem;border:2px solid #30363d;border-top-color:#58a6ff;border-radius:50%;animation:spin .8s linear infinite;flex-shrink:0}
    @keyframes spin{to{transform:rotate(360deg)}}
    .log-box{background:#010409;border:1px solid var(--border);border-radius:6px;padding:.75rem;font-family:'SF Mono','Fira Code',monospace;font-size:.8rem;max-height:500px;overflow-y:auto;white-space:pre-wrap;word-break:break-all;line-height:1.4;color:#8b949e}
    .transcript-item{background:var(--card);border:1px solid var(--border);border-radius:6px;padding:.75rem;margin-bottom:.5rem}
    .transcript-item h3{font-size:.85rem;color:var(--accent);margin-bottom:.4rem}
    .proc-table{width:100%;border-collapse:collapse;font-size:.85rem}
    .proc-table th{text-align:left;color:#8b949e;padding:.4rem .6rem;border-bottom:1px solid var(--border)}
    .proc-table td{padding:.4rem .6rem;border-bottom:1px solid var(--border)}
    .proc-table tr:last-child td{border-bottom:none}
    .proc-tree .proc-row{display:flex;gap:.5rem;align-items:baseline;padding:.25rem .5rem;border-bottom:1px solid var(--border);font-family:monospace;font-size:.82rem}
    .proc-tree .proc-row:hover{background:rgba(88,166,255,0.05)}
    .proc-tree .proc-pid{color:var(--accent);min-width:4rem;font-weight:600}
    .proc-tree .proc-uptime{min-width:6rem}
    .proc-tree .proc-kids.collapsed{display:none}
    .proc-tree .proc-kids{border-left:1px solid #30363d;margin-left:8px}
    #chat-messages{background:#010409;border:1px solid var(--border);border-radius:6px;padding:.75rem;height:400px;overflow-y:auto;font-size:.9rem;margin-bottom:.75rem}
    .chat-msg{margin-bottom:.5rem} .chat-msg .role{font-weight:700;margin-right:.5rem}
    .chat-msg .role.user{color:var(--accent)} .chat-msg .role.system{color:var(--yellow)} .chat-msg .role.assistant{color:var(--green)}
    .typing-dots span{animation:blink 1.4s infinite both;font-size:1.2em}
    .typing-dots span:nth-child(2){animation-delay:.2s}
    .typing-dots span:nth-child(3){animation-delay:.4s}
    @keyframes blink{0%,80%,100%{opacity:0}40%{opacity:1}}
    #chat-send:disabled{opacity:.5;cursor:not-allowed}
    #chat-input-row{display:flex;gap:.5rem}
    #chat-input{flex:1;padding:.5rem;border:1px solid var(--border);border-radius:6px;background:var(--card);color:var(--fg);font-size:.9rem;resize:none;height:42px}
    #chat-input:focus{outline:none;border-color:var(--accent)}
    #chat-send{padding:.5rem 1.2rem;border:none;border-radius:6px;background:var(--accent);color:#0d1117;font-weight:600;cursor:pointer}
    #chat-send:hover{opacity:.9}
    .ws-status{font-size:.8rem;color:#8b949e;margin-bottom:.5rem} .ws-status.connected{color:var(--green)} .ws-status.disconnected{color:var(--red)}
    .mem-file{background:var(--card);border:1px solid var(--border);border-radius:6px;padding:.75rem;margin-bottom:.5rem}
    .mem-file h3{font-size:.85rem;color:var(--accent);margin-bottom:.4rem}
    .badge{display:inline-block;padding:.15rem .5rem;border-radius:10px;font-size:.75rem;font-weight:600;background:#1f6feb33;color:var(--accent)}
    .btn{background:var(--accent);color:#0d1117;border:none;border-radius:4px;padding:.2rem .6rem;cursor:pointer;font-size:.8rem;float:right}
    .btn:hover{opacity:.9}
    .thinking-cycle{border:1px solid var(--border);border-radius:8px;padding:1rem;margin-bottom:1rem;background:var(--card)}
    .thinking-cycle.legacy{opacity:0.7}
    .cycle-header{display:flex;align-items:center;gap:.75rem;margin-bottom:.75rem;padding-bottom:.5rem;border-bottom:1px solid var(--border)}
    .cycle-num{font-weight:700;font-size:1rem;color:var(--accent)}
    .cycle-summary-inline{font-size:.85rem;color:#8b949e}
    .cycle-badge{font-size:.7rem;padding:2px 6px;border-radius:4px;background:#21262d;color:#8b949e}
    .phase{margin-bottom:.75rem;padding-left:1rem;border-left:3px solid var(--border)}
    .phase.observe{border-left-color:var(--accent)}
    .phase.orient{border-left-color:var(--yellow)}
    .phase.decide{border-left-color:#a371f7}
    .phase.act{border-left-color:var(--green)}
    .phase-label{font-weight:600;font-size:.9rem;margin-bottom:.3rem}
    .phase-content{font-size:.85rem;color:#c9d1d9}
    .phase-content div{margin-bottom:.2rem}
    .goal-line{padding-left:.5rem;color:#8b949e}
    .priority-line{padding-left:.5rem}
    .urgency{margin-right:.3rem}
    .outcome{padding:.4rem;border-radius:4px;margin-bottom:.3rem}
    .outcome.success{background:rgba(63,185,80,0.1)}
    .outcome.failure{background:rgba(248,81,73,0.1)}
    .outcome-detail{font-size:.8rem;color:#8b949e;margin-top:.2rem;padding-left:1rem;font-family:monospace;white-space:pre-wrap;max-height:100px;overflow-y:auto}
    .page-h1{color:var(--fg);font-size:1.45rem;margin-bottom:.35rem}
    .page-lede{color:#8b949e;font-size:.92rem;line-height:1.45;margin-bottom:1.25rem;max-width:62rem}
    h2.subsection{color:var(--accent);font-size:1.05rem;margin:1.5rem 0 .75rem;padding-bottom:.35rem;border-bottom:1px solid var(--border)}
    .section-anchor{display:block;position:relative;top:-1rem;visibility:hidden}
    .glossary-toggle{background:transparent;border:1px solid var(--border);color:#8b949e;border-radius:4px;padding:.2rem .6rem;font-size:.85rem;cursor:pointer}
    .glossary-toggle:hover{color:var(--fg)}
    .glossary-panel{display:none;position:fixed;top:0;right:0;width:360px;max-width:90vw;height:100vh;overflow-y:auto;background:var(--card);border-left:1px solid var(--border);padding:1.25rem;z-index:50}
    .glossary-panel.open{display:block}
    .glossary-panel h3{color:var(--accent);margin-bottom:.5rem}
    .glossary-panel .close-btn{float:right;background:none;border:none;color:#8b949e;font-size:1.2rem;cursor:pointer}
    .glossary-entry dt{font-weight:600;color:var(--fg);margin-top:.5rem}
    .glossary-entry dd{color:#8b949e;font-size:.85rem;margin-left:0}
    .chat-layout{display:flex;gap:1rem;align-items:flex-start}
    #chat-sidebar{width:220px;flex-shrink:0}
    #chat-new{width:100%;padding:.4rem;margin-bottom:.5rem;border:1px solid var(--border);border-radius:6px;background:var(--card);color:var(--fg);cursor:pointer}
    #chat-panel{flex:1}
"#;

/// Lines 101 to 200 of this segment.
pub const PART_00_01: &'static str = r#"    .goal-label-chip{display:inline-block;padding:0 6px;margin:0 3px 2px 0;border-radius:8px;border:1px solid var(--border);font-size:.7rem;color:#8b949e}
    .goal-child-row td:first-child{padding-left:1.5rem}
    #mem-graph-error{display:none;position:absolute;top:1rem;left:1rem;right:1rem;padding:.6rem .8rem;border:1px solid var(--red);border-radius:6px;background:rgba(248,81,73,0.12);color:var(--red);font-size:.85rem;z-index:5}
    #mem-graph-empty{display:none;position:absolute;top:45%;left:0;right:0;text-align:center;color:#8b949e;font-size:.9rem}
  </style>
</head>
<body>
  <header>
    <div class="brand">🌲 Simard Dashboard</div>
    <div style="display:flex;align-items:center;gap:1rem">
      <span id="header-version" style="font-size:.75rem;color:#8b949e"></span>
      {{FEEDBACK_WIDGET_BUTTON}}
      <button class="glossary-toggle" onclick="toggleGlossary()" title="Open the glossary of dashboard terms">📖 Glossary</button>
      <a href="https://github.com/rysweet/Simard" target="_blank" style="color:#8b949e;text-decoration:none;font-size:.85rem;padding:.2rem .4rem" title="Source on GitHub">⟨/⟩ Source</a>
      <a href="https://github.com/rysweet/Simard/releases/latest" target="_blank" style="color:#3fb950;text-decoration:none;font-size:.85rem;border:1px solid #3fb950;padding:.2rem .6rem;border-radius:4px">📦 Releases</a>
      <span id="clock" style="color:#8b949e;font-size:.85rem"></span>
    </div>
  </header>
  {{TAB_NAV}}

  <div class="tab-content active" id="tab-overview">
    <h1 class="page-h1">Overview</h1>
    <p class="page-lede">A live look at what the Simard daemon is doing right now, plus system health, open work items, aggregate run counters, and any other Simard hosts in your cluster.</p>
    <span class="section-anchor" id="section-summary"></span>
    <h2 class="subsection">Summary</h2>
    <div class="card" style="margin-bottom:1rem;border:1px solid #238636;background:linear-gradient(135deg,#0d1117,#0f1a12)">
      <h2 style="color:#3fb950;margin-bottom:.75rem">🤖 Simard — Autonomous Agent</h2>
      <div id="agent-live-status"><span class="loading">Loading agent status…</span></div>
    </div>
    <div class="grid">
      <div class="card">
        <h2>Recent Actions <button class="btn" onclick="fetchStatus()" style="font-size:.75rem">Refresh</button></h2>
        <div id="recent-actions-list"><span class="loading">Loading…</span></div>
      </div>
      <div class="card">
        <h2>Open PRs</h2>
        <div id="open-prs-list"><span class="loading">Loading…</span></div>
      </div>
      <div class="card"><h2>Open Issues</h2><ul id="issues-list"><li class="loading">Loading…</li></ul></div>
    </div>
    <span class="section-anchor" id="section-status"></span>
    <h2 class="subsection">Health</h2>
    <div class="grid">
      <div class="card"><h2>Status Snapshot <button class="btn" onclick="fetchStatusSnapshot()" style="font-size:.75rem">Refresh</button></h2><div id="status-snapshot-panel"><span class="loading">Loading…</span></div></div>
      <div class="card"><h2>System Status</h2><div id="status"><span class="loading">Loading…</span></div></div>
      <div class="card"><h2>Merge Readiness</h2><div id="merge-readiness-panel"><span class="loading">Loading…</span></div></div>
      <div class="card">
        <h2>Cluster Topology <button class="btn" onclick="fetchDistributed()">Refresh</button></h2>
        <div id="cluster-topology"><span class="loading">Loading…</span></div>
      </div>
      <div class="card">
        <h2>Remote VMs</h2>
        <div id="remote-vms"><span class="loading">Loading…</span></div>
      </div>
      <div class="card">
        <h2>Azlin Hosts</h2>
        <div id="hosts-list"><span class="loading">Loading…</span></div>
        <div style="margin-top:1rem;display:flex;gap:0.5rem;align-items:center;flex-wrap:wrap">
          <input id="host-name" placeholder="VM name" style="padding:4px;background:#1a1a2e;border:1px solid #333;color:#e0e0e0;border-radius:4px;width:12rem">
          <input id="host-rg" placeholder="Resource group" value="rysweet-linux-vm-pool" style="padding:4px;background:#1a1a2e;border:1px solid #333;color:#e0e0e0;border-radius:4px;width:16rem">
          <button class="btn" onclick="addHost()">Add Host</button>
          <span id="host-status"></span>
        </div>
      </div>
    </div>
    <span class="section-anchor" id="section-stats"></span>
    <h2 class="subsection">Stats</h2>
    <div class="grid">
      <div class="card"><h2>Cycle Trend</h2><div id="ooda-cycle-trend"><span class="loading">Loading…</span></div></div>
      <div class="card"><h2>Cycle History</h2><div id="ooda-cycle-history"><span class="loading">Loading…</span></div></div>
      <div class="card"><h2>Recall Precision</h2><div id="cognition-recall-precision"><span class="loading">Loading…</span></div></div>
    </div>
  </div>

  <div class="tab-content" id="tab-goals">
    <h1 class="page-h1">Goals</h1>
    <p class="page-lede">The things you have asked Simard to accomplish — active goals in progress now, the queued backlog, and a work board of the tasks it is moving through.</p>
    <div class="card" style="margin-bottom:1rem">
      <h2>Active Goals
        <button class="btn" onclick="fetchGoals()">Refresh</button>
        <button class="btn" onclick="seedGoals()" style="margin-left:.5rem">Seed Default Goals</button>
        <button class="btn" onclick="showAddGoalForm()" style="margin-left:.5rem">+ Add Goal</button>
      </h2>
      <div id="add-goal-form" style="display:none;margin-bottom:1rem;padding:.75rem;background:var(--bg);border:1px solid var(--border);border-radius:6px">
        <div style="display:flex;gap:.5rem;margin-bottom:.5rem">
          <input id="new-goal-desc" placeholder="Goal description" style="flex:1;padding:.4rem;background:var(--card);color:var(--fg);border:1px solid var(--border);border-radius:4px">
          <select id="new-goal-type" style="padding:.4rem;background:var(--card);color:var(--fg);border:1px solid var(--border);border-radius:4px">
            <option value="active">Active</option>
            <option value="backlog">Backlog</option>
          </select>
          <input id="new-goal-priority" type="number" min="1" max="5" value="3" style="width:50px;padding:.4rem;background:var(--card);color:var(--fg);border:1px solid var(--border);border-radius:4px" placeholder="Pri">
        </div>
        <div style="display:flex;gap:.5rem">
          <button class="btn" onclick="submitGoal()">Add</button>
          <button class="btn" onclick="document.getElementById('add-goal-form').style.display='none'" style="background:#21262d">Cancel</button>
        </div>
      </div>
      <div id="goals-tag-filter" style="margin-bottom:.5rem;font-size:.85rem;color:#8b949e"></div>
      <div id="goals-active"><span class="loading">Loading…</span></div>
    </div>
"#;

/// Lines 201 to 300 of this segment.
pub const PART_00_02: &'static str = r#"    <div class="card">
      <h2>Backlog</h2>
      <div id="goals-backlog"><span class="loading">Loading…</span></div>
    </div>
    <span class="section-anchor" id="section-workboard"></span>
    <h2 class="subsection">Work Board</h2>
    <div id="wb-header" style="display:flex;align-items:center;gap:1.5rem;margin-bottom:1rem;flex-wrap:wrap">
      <div id="wb-cycle-indicator" style="display:flex;align-items:center;gap:.5rem">
        <span id="wb-phase-dot" style="width:12px;height:12px;border-radius:50%;display:inline-block;background:#8b949e"></span>
        <span id="wb-cycle-label" style="font-weight:700;color:var(--accent)">Cycle —</span>
        <span id="wb-phase-label" style="color:#8b949e;font-size:.85rem"></span>
      </div>
      <div style="color:#8b949e;font-size:.85rem"><span id="wb-uptime">—</span> uptime</div>
      <div style="color:#8b949e;font-size:.85rem">Next cycle: <span id="wb-eta" style="color:var(--fg);font-weight:600">—</span></div>
      <button class="btn" onclick="fetchWorkboard()">Refresh</button>
    </div>
    <div id="wb-kanban" style="display:grid;grid-template-columns:repeat(4,1fr);gap:.75rem;margin-bottom:1.25rem">
      <div class="card" style="min-height:80px"><h2 style="font-size:.85rem">Queued</h2><div id="wb-col-queued"></div></div>
      <div class="card" style="min-height:80px"><h2 style="font-size:.85rem">In Progress</h2><div id="wb-col-inprogress"></div></div>
      <div class="card" style="min-height:80px"><h2 style="font-size:.85rem">Blocked</h2><div id="wb-col-blocked"></div></div>
      <div class="card" style="min-height:80px"><h2 style="font-size:.85rem">Done</h2><div id="wb-col-done"></div></div>
    </div>
    <div class="grid" style="margin-bottom:1.25rem">
      <div class="card">
        <h2>Active Engineers</h2>
        <div id="wb-engineers"><span style="color:#8b949e">No spawned engineers</span></div>
      </div>
      <div class="card">
        <h2>Recent Actions</h2>
        <div id="wb-actions" style="max-height:300px;overflow-y:auto"><span style="color:#8b949e">No recent actions</span></div>
      </div>
    </div>
    <div class="card" style="margin-bottom:1.25rem">
      <h2 style="cursor:pointer" onclick="document.getElementById('wb-wm-body').style.display=document.getElementById('wb-wm-body').style.display==='none'?'block':'none'">Working Memory <span style="font-weight:normal;color:#8b949e;font-size:.8rem" id="wb-wm-count">0 slots</span> <span style="font-size:.75rem;color:#8b949e">▾</span></h2>
      <div id="wb-wm-body">
        <div id="wb-wm-list" style="font-size:.85rem;color:#8b949e">No active working memory</div>
      </div>
    </div>
    <div class="grid">
      <div class="card">
        <h2>Task Memory <span id="wb-facts-count" style="font-weight:normal;color:#8b949e;font-size:.8rem"></span></h2>
        <div id="wb-facts-list"><span style="color:#8b949e">No recent facts in memory</span></div>
      </div>
      <div class="card">
        <h2>Agent Memory</h2>
        <div id="wb-cog-stats"><span style="color:#8b949e">No agent memory available</span></div>
      </div>
    </div>
  </div>

  <div class="tab-content" id="tab-activity">
    <h1 class="page-h1">Activity</h1>
    <p class="page-lede">Everything Simard has been doing recently in one place — the background service log, step-by-step decision traces, the live thinking stream, and where its brain failed to parse a response.</p>
    <span class="section-anchor" id="section-logs"></span>
    <h2 class="subsection">Logs</h2>
    <div class="card" style="margin-bottom:1rem">
      <h2>Daemon Log <button class="btn" onclick="fetchLogs()">Refresh</button> <button class="btn" onclick="copyLogContent('daemon-log')" style="margin-left:.3rem">📋 Copy</button></h2>
      <div style="margin-bottom:.5rem;display:flex;gap:.5rem;align-items:center">
        <input id="log-filter" placeholder="Filter logs…" style="flex:1;padding:4px 8px;background:var(--bg);border:1px solid var(--border);color:var(--fg);border-radius:4px;font-size:.85rem">
        <select id="log-level-filter" style="padding:4px;background:var(--bg);border:1px solid var(--border);color:var(--fg);border-radius:4px;font-size:.85rem">
          <option value="">All levels</option>
          <option value="error">Errors</option>
          <option value="warn">Warnings</option>
          <option value="info">Info</option>
        </select>
        <span id="log-line-count" style="color:#8b949e;font-size:.8rem"></span>
      </div>
      <div id="daemon-log" class="log-box"><span class="loading">Loading…</span></div>
    </div>
    <div class="card" style="margin-bottom:1rem">
      <h2>Cycle Reports</h2>
      <div id="cycle-reports"><span class="loading">Loading…</span></div>
    </div>
    <h3 style="color:var(--accent);font-size:.95rem;margin-bottom:.5rem">Decision Transcripts</h3>
    <div id="ooda-transcripts"><span class="loading">Loading…</span></div>
    <h3 style="color:var(--accent);font-size:.95rem;margin:.75rem 0 .5rem">Terminal Session Transcripts</h3>
    <div id="terminal-transcripts"><span class="loading">Loading…</span></div>
    <span class="section-anchor" id="section-traces"></span>
    <h2 class="subsection">Traces</h2>
    <div class="card" style="margin-bottom:1rem">
      <h2>Traces <button class="btn" onclick="fetchTraces()">Refresh</button></h2>
      <div id="otel-status" style="margin-bottom:.75rem"><span class="loading">Loading…</span></div>
      <div id="trace-list" class="log-box" style="max-height:600px;overflow-y:auto"><span class="loading">Loading…</span></div>
    </div>
    <span class="section-anchor" id="section-thinking"></span>
    <h2 class="subsection">Thinking</h2>
    <div class="card" style="margin-bottom:1rem">
      <h2>Internal Reasoning <button class="btn" onclick="fetchThinking()">Refresh</button></h2>
      <div id="thinking-timeline"><span class="loading">Loading…</span></div>
    </div>
    <span class="section-anchor" id="section-brain-failures"></span>
    <h2 class="subsection">Failures</h2>
    <div class="card">
      <h2>Brain Failures <button class="btn" onclick="fetchBrainFailures()">Refresh</button></h2>
      <div id="brain-failures-summary" style="margin-bottom:.75rem"><span class="loading">Loading…</span></div>
      <div id="brain-failures-list"></div>
    </div>
  </div>

  <div class="tab-content" id="tab-memory">
"#;

/// Lines 301 to 379 of this segment.
pub const PART_00_03: &'static str = r#"    <h1 class="page-h1">Memory</h1>
    <p class="page-lede">A living map of what Simard knows — an interactive graph of the facts, events, procedures, and plans it holds, colour-coded by memory type and drawn live from what it currently remembers.</p>
    <div style="display:flex;align-items:center;gap:1rem;margin-bottom:1rem">
      <span id="mem-graph-stats" style="color:#8b949e;font-size:.8rem"></span>
      <button class="btn" onclick="fetchMemoryGraph()" style="font-size:.75rem;margin-left:auto">Refresh Graph</button>
    </div>
    <div id="mem-graph-panel">
      <div class="card" style="margin-bottom:.5rem;padding:.5rem .75rem">
        <div style="display:flex;gap:1rem;flex-wrap:wrap;align-items:center;font-size:.8rem">
          <label style="color:#f0883e"><input type="checkbox" class="mem-filter" data-type="WorkingMemory" checked> Working</label>
          <label style="color:#58a6ff"><input type="checkbox" class="mem-filter" data-type="SemanticFact" checked> Semantic</label>
          <label style="color:#3fb950"><input type="checkbox" class="mem-filter" data-type="EpisodicMemory" checked> Episodic</label>
          <label style="color:#a371f7"><input type="checkbox" class="mem-filter" data-type="ProceduralMemory" checked> Procedural</label>
          <label style="color:#d29922"><input type="checkbox" class="mem-filter" data-type="ProspectiveMemory" checked> Prospective</label>
          <label style="color:#8b949e"><input type="checkbox" class="mem-filter" data-type="SensoryBuffer" checked> Sensory</label>
        </div>
      </div>
      <div style="display:flex;gap:1rem">
        <div class="card" style="flex:1;padding:0;position:relative;min-height:60vh">
          <div id="mem-graph-error" role="alert"></div>
          <div id="mem-graph-empty"></div>
          <canvas id="mem-graph-canvas" style="width:100%;height:60vh;display:block;cursor:grab"></canvas>
          <div id="mem-graph-tooltip" style="display:none;position:absolute;background:#161b22;border:1px solid #30363d;border-radius:6px;padding:.5rem .75rem;font-size:.8rem;max-width:320px;pointer-events:none;z-index:10;word-break:break-word"></div>
        </div>
        <div id="mem-graph-detail" class="card" style="width:280px;display:none">
          <h2 id="mg-detail-title">Node Details</h2>
          <div id="mg-detail-body"></div>
        </div>
      </div>
    </div>
  </div>

  <div class="tab-content" id="tab-resources">
    <h1 class="page-h1">Resources</h1>
    <p class="page-lede">What Simard has learned and remembered alongside what it costs to run — searchable memory of facts, events, and plans, plus token and dollar spending by model and provider.</p>
    <span class="section-anchor" id="section-memory-recall"></span>
    <h2 class="subsection">Memory</h2>
    <div class="grid" style="margin-bottom:1rem">
      <div class="card">
        <h2>Recent Memories <span style="font-weight:normal;color:#8b949e;font-size:.8rem"><span id="mem-recent-count">—</span> in the last hour · <span id="mem-recent-total"></span></span></h2>
        <div id="mem-recent-list"><span class="loading">Loading…</span></div>
      </div>
      <div class="card">
        <h2>Memory Growth <span id="mem-growth-rate" style="font-weight:normal;color:#8b949e;font-size:.8rem"></span></h2>
        <div id="mem-growth-trend" style="font-size:.85rem"></div>
        <div id="mem-growth-sparkline"></div>
        <div id="mem-growth-deltas"></div>
      </div>
    </div>
    <div style="display:flex;gap:1rem;margin-bottom:1rem">
      <div class="card" style="flex:1">
        <h2>Memory Search</h2>
        <div style="display:flex;gap:.5rem;align-items:center;margin-bottom:.75rem">
          <input id="mem-search-input" placeholder="Search memories…" style="flex:1;padding:6px;background:#1a1a2e;border:1px solid #333;color:#e0e0e0;border-radius:4px">
          <button class="btn" onclick="searchMemory()">Search</button>
        </div>
        <div id="mem-search-results"></div>
      </div>
      <div class="card" style="flex:1"><h2>Memory Overview</h2><div id="mem-overview"><span class="loading">Loading…</span></div></div>
      <div class="card" style="flex:1"><h2>Memory Files</h2><div id="mem-files"><span class="loading">Loading…</span></div></div>
    </div>
    <span class="section-anchor" id="section-costs"></span>
    <h2 class="subsection">Costs</h2>
    <div class="grid">
      <div class="card"><h2>Daily Costs <button class="btn" onclick="fetchCosts()">Refresh</button></h2><div id="costs-daily"><span class="loading">Loading…</span></div></div>
      <div class="card"><h2>Weekly Costs</h2><div id="costs-weekly"><span class="loading">Loading…</span></div></div>
      <div class="card"><h2>Budget Settings</h2>
        <div style="display:flex;gap:1rem;align-items:center;flex-wrap:wrap">
          <label>Daily $<input id="budget-daily" type="number" step="0.01" style="width:8rem;padding:4px;background:#1a1a2e;border:1px solid #333;color:#e0e0e0;border-radius:4px"></label>
          <label>Weekly $<input id="budget-weekly" type="number" step="0.01" style="width:8rem;padding:4px;background:#1a1a2e;border:1px solid #333;color:#e0e0e0;border-radius:4px"></label>
          <button class="btn" onclick="saveBudget()">Save</button>
          <span id="budget-status"></span>
        </div>
      </div>
      <div class="card"><h2>Cost Ledger <button class="btn" onclick="copyLogContent('cost-log-box')">📋 Copy</button></h2>
        <div id="cost-log-box" class="log-box" style="max-height:200px"><span class="loading">Loading…</span></div>
      </div>
    </div>
  </div>"#;

/// Dashboard HTML segment: document head, styles, header and the first tab panels.
pub open spec fn part_00() -> Seq<char> {
    PART_00_00@
        + PART_00_01@
        + PART_00_02@
        + PART_00_03@
}

/// Appends this segment to `out`.
pub fn push_part_00(out: &mut Vec<char>)
    ensures
        final(out)@ == old(out)@ + part_00(),
{
    push_str(out, PART_00_00);
    push_str(out, PART_00_01);
    push_str(out, PART_00_02);
    push_str(out, PART_00_03);
}

} // verus!
