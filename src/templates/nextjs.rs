//! The Next.js template: pages, an API route, a layout component and global styles.
use vstd::prelude::*;
use crate::path_safety::clean_from;
use crate::plan::{FileUnit, PlanModel, plan_view, is_valid_plan, all_clean_from, pairs_distinct_from, lemma_checked_plan_is_valid};

verus! {

/// The files of this template, in the order they are written.
pub open spec fn plan_model() -> PlanModel {
    seq![
        ("package.json"@, PACKAGE_JSON@),
        ("next.config.js"@, NEXT_CONFIG@),
        ("pages/_app.js"@, APP_JS@),
        ("pages/index.js"@, INDEX_JS@),
        ("pages/about.js"@, ABOUT_JS@),
        ("pages/api/hello.js"@, API_HELLO@),
        ("styles/globals.css"@, GLOBALS_CSS@),
        ("components/Layout.js"@, LAYOUT@),
        ("public/.gitkeep"@, ""@),
        ("README.md"@, README@),
        (".gitignore"@, GITIGNORE@),
    ]
}

/// Builds the plan of this template; it is the same on every call.
pub fn generate() -> (r: Vec<FileUnit>)
    ensures
        plan_view(r@) == plan_model(),
{
    let mut units: Vec<FileUnit> = Vec::new();
    units.push(FileUnit::new("package.json", PACKAGE_JSON));
    units.push(FileUnit::new("next.config.js", NEXT_CONFIG));
    units.push(FileUnit::new("pages/_app.js", APP_JS));
    units.push(FileUnit::new("pages/index.js", INDEX_JS));
    units.push(FileUnit::new("pages/about.js", ABOUT_JS));
    units.push(FileUnit::new("pages/api/hello.js", API_HELLO));
    units.push(FileUnit::new("styles/globals.css", GLOBALS_CSS));
    units.push(FileUnit::new("components/Layout.js", LAYOUT));
    units.push(FileUnit::new("public/.gitkeep", ""));
    units.push(FileUnit::new("README.md", README));
    units.push(FileUnit::new(".gitignore", GITIGNORE));
    assert(plan_view(units@) =~= plan_model());
    units
}

proof fn lemma_paths_clean()
    ensures
        all_clean_from(plan_model(), 0),
{
    reveal_strlit("package.json");
    reveal_strlit("next.config.js");
    reveal_strlit("pages/_app.js");
    reveal_strlit("pages/index.js");
    reveal_strlit("pages/about.js");
    reveal_strlit("pages/api/hello.js");
    reveal_strlit("styles/globals.css");
    reveal_strlit("components/Layout.js");
    reveal_strlit("public/.gitkeep");
    reveal_strlit("README.md");
    reveal_strlit(".gitignore");
    reveal_with_fuel(clean_from, 40);
    reveal_with_fuel(all_clean_from, 13);
}

proof fn lemma_paths_distinct()
    ensures
        pairs_distinct_from(plan_model(), 0, 1),
{
    reveal_strlit("package.json");
    reveal_strlit("next.config.js");
    reveal_strlit("pages/_app.js");
    reveal_strlit("pages/index.js");
    reveal_strlit("pages/about.js");
    reveal_strlit("pages/api/hello.js");
    reveal_strlit("styles/globals.css");
    reveal_strlit("components/Layout.js");
    reveal_strlit("public/.gitkeep");
    reveal_strlit("README.md");
    reveal_strlit(".gitignore");
    assert("package.json"@.len() == 12);
    assert("next.config.js"@.len() == 14);
    assert("pages/_app.js"@.len() == 13);
    assert("pages/index.js"@.len() == 14);
    assert("pages/about.js"@.len() == 14);
    assert("pages/api/hello.js"@.len() == 18);
    assert("styles/globals.css"@.len() == 18);
    assert("components/Layout.js"@.len() == 20);
    assert("public/.gitkeep"@.len() == 15);
    assert("README.md"@.len() == 9);
    assert(".gitignore"@.len() == 10);
    assert("next.config.js"@[0] != "pages/index.js"@[0]);
    assert("next.config.js"@[0] != "pages/about.js"@[0]);
    assert("pages/index.js"@[6] != "pages/about.js"@[6]);
    assert("pages/api/hello.js"@[0] != "styles/globals.css"@[0]);
    reveal_with_fuel(pairs_distinct_from, 79);
}

/// The plan of this template is non-empty, its paths are safe and pairwise distinct.
pub proof fn lemma_plan_is_valid()
    ensures
        plan_model().len() > 0,
        is_valid_plan(plan_model()),
{
    lemma_paths_clean();
    lemma_paths_distinct();
    lemma_checked_plan_is_valid(plan_model());
}

pub const PACKAGE_JSON: &'static str = r###"{
  "name": "nextjs-app",
  "version": "0.1.0",
  "private": true,
  "scripts": {
    "dev": "next dev",
    "build": "next build",
    "start": "next start",
    "lint": "next lint"
  },
  "dependencies": {
    "next": "14.0.0",
    "react": "^18.2.0",
    "react-dom": "^18.2.0"
  },
  "devDependencies": {
    "eslint": "^8",
    "eslint-config-next": "14.0.0"
  }
}
"###;

pub const NEXT_CONFIG: &'static str = r###"/** @type {import('next').NextConfig} */
const nextConfig = {
  reactStrictMode: true,
}

module.exports = nextConfig
"###;

pub const APP_JS: &'static str = r###"import '../styles/globals.css'

function MyApp({ Component, pageProps }) {
  return <Component {...pageProps} />
}

export default MyApp
"###;

pub const INDEX_JS: &'static str = r###"import Layout from '../components/Layout'

export default function Home() {
  return (
    <Layout>
      <div className="hero">
        <h1>Welcome to Next.js</h1>
        <p>A modern React framework with SSR and routing</p>
        <div className="buttons">
          <a href="/about" className="btn btn-primary">About</a>
          <a href="/api/hello" className="btn btn-secondary">API Demo</a>
        </div>
      </div>
      
      <div className="features">
        <div className="feature-card">
          <h3>‚ö° Fast</h3>
          <p>Server-side rendering and static generation</p>
        </div>
        <div className="feature-card">
          <h3>üîÑ File-based Routing</h3>
          <p>Automatic routing based on file structure</p>
        </div>
        <div className="feature-card">
          <h3>üé® CSS Support</h3>
          <p>Built-in CSS and Sass support</p>
        </div>
        <div className="feature-card">
          <h3>üì¶ API Routes</h3>
          <p>Build APIs with serverless functions</p>
        </div>
      </div>
    </Layout>
  )
}
"###;

pub const ABOUT_JS: &'static str = r###"import Layout from '../components/Layout'

export default function About() {
  return (
    <Layout>
      <div className="page-content">
        <h1>About This App</h1>
        <p>This is a Next.js template application.</p>
        <p>It includes:</p>
        <ul>
          <li>Server-side rendering (SSR)</li>
          <li>Static site generation (SSG)</li>
          <li>API routes</li>
          <li>File-based routing</li>
          <li>Optimized performance</li>
        </ul>
        <a href="/" className="btn btn-primary">Back to Home</a>
      </div>
    </Layout>
  )
}
"###;

pub const API_HELLO: &'static str = r###"export default function handler(req, res) {
  res.status(200).json({ 
    message: 'Hello from Next.js API!',
    timestamp: new Date().toISOString()
  })
}
"###;

pub const GLOBALS_CSS: &'static str = r###"* {
  margin: 0;
  padding: 0;
  box-sizing: border-box;
}

:root {
  --primary: #0070f3;
  --secondary: #7928ca;
  --dark: #1a1a1a;
  --light: #f5f5f5;
}

body {
  font-family: -apple-system, BlinkMacSystemFont, Segoe UI, Roboto, Oxygen,
    Ubuntu, Cantarell, Fira Sans, Droid Sans, Helvetica Neue, sans-serif;
  color: var(--dark);
  background: var(--light);
}

.container {
  max-width: 1200px;
  margin: 0 auto;
  padding: 0 20px;
}

.navbar {
  background: white;
  box-shadow: 0 2px 10px rgba(0,0,0,0.1);
  padding: 1rem 0;
}

.nav-content {
  display: flex;
  justify-content: space-between;
  align-items: center;
}

.logo {
  font-size: 1.5rem;
  font-weight: bold;
  color: var(--primary);
}

.nav-links {
  display: flex;
  gap: 2rem;
  list-style: none;
}

.nav-links a {
  color: var(--dark);
  text-decoration: none;
  transition: color 0.3s;
}

.nav-links a:hover {
  color: var(--primary);
}

.hero {
  text-align: center;
  padding: 100px 20px;
  background: linear-gradient(135deg, var(--primary), var(--secondary));
  color: white;
}

.hero h1 {
  font-size: 3rem;
  margin-bottom: 1rem;
}

.hero p {
  font-size: 1.5rem;
  margin-bottom: 2rem;
  opacity: 0.9;
}

.buttons {
  display: flex;
  gap: 1rem;
  justify-content: center;
}

.btn {
  padding: 12px 30px;
  border-radius: 5px;
  text-decoration: none;
  font-weight: 500;
  transition: all 0.3s;
  display: inline-block;
}

.btn-primary {
  background: white;
  color: var(--primary);
}

.btn-primary:hover {
  transform: translateY(-2px);
  box-shadow: 0 5px 15px rgba(0,0,0,0.2);
}

.btn-secondary {
  background: transparent;
  color: white;
  border: 2px solid white;
}

.btn-secondary:hover {
  background: white;
  color: var(--primary);
}

.features {
  padding: 80px 20px;
  display: grid;
  grid-template-columns: repeat(auto-fit, minmax(250px, 1fr));
  gap: 2rem;
  max-width: 1200px;
  margin: 0 auto;
}

.feature-card {
  background: white;
  padding: 2rem;
  border-radius: 10px;
  box-shadow: 0 5px 15px rgba(0,0,0,0.1);
  transition: transform 0.3s;
}

.feature-card:hover {
  transform: translateY(-5px);
}

.feature-card h3 {
  color: var(--primary);
  margin-bottom: 1rem;
}

.page-content {
  max-width: 800px;
  margin: 0 auto;
  padding: 80px 20px;
}

.page-content h1 {
  font-size: 2.5rem;
  margin-bottom: 2rem;
}

.page-content ul {
  margin: 2rem 0;
  padding-left: 2rem;
}

.page-content li {
  margin: 0.5rem 0;
}

@media (max-width: 768px) {
  .hero h1 {
    font-size: 2rem;
  }
  
  .nav-links {
    gap: 1rem;
  }
}
"###;

pub const LAYOUT: &'static str = r###"export default function Layout({ children }) {
  return (
    <>
      <nav className="navbar">
        <div className="container">
          <div className="nav-content">
            <div className="logo">Next.js App</div>
            <ul className="nav-links">
              <li><a href="/">Home</a></li>
              <li><a href="/about">About</a></li>
            </ul>
          </div>
        </div>
      </nav>
      <main>{children}</main>
    </>
  )
}
"###;

pub const README: &'static str = r###"# Next.js Application

A modern web application built with Next.js.

## Features

- ‚ö° Server-side rendering (SSR)
- üìÑ Static site generation (SSG)
- üîÑ File-based routing
- üì¶ API routes
- üé® CSS support
- ‚öõÔ∏è React 18

## Getting Started

Install dependencies:
```bash
npm install
```

Run the development server:
```bash
npm run dev
```

Open [http://localhost:3000](http://localhost:3000) with your browser.

## Build for Production

```bash
npm run build
npm start
```

## Learn More

- [Next.js Documentation](https://nextjs.org/docs)
- [Learn Next.js](https://nextjs.org/learn)

## Deploy

Deploy easily to Vercel, Netlify, or any Node.js hosting platform.

## License

MIT
"###;

pub const GITIGNORE: &'static str = r###"# Dependencies
/node_modules
/.pnp
.pnp.js

# Testing
/coverage

# Next.js
/.next/
/out/

# Production
/build

# Misc
.DS_Store
*.pem

# Debug
npm-debug.log*
yarn-debug.log*
yarn-error.log*

# Local env files
.env*.local

# Vercel
.vercel
"###;

} // verus!
