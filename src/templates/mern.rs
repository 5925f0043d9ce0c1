//! The MERN stack template: an Express and MongoDB backend beside a React frontend.
use vstd::prelude::*;
use crate::path_safety::clean_from;
use crate::plan::{FileUnit, PlanModel, plan_view, is_valid_plan, all_clean_from, pairs_distinct_from, lemma_checked_plan_is_valid};

verus! {

/// The files of this template, in the order they are written.
pub open spec fn plan_model() -> PlanModel {
    seq![
        ("README.md"@, ROOT_README@),
        ("backend/package.json"@, BACKEND_PACKAGE@),
        ("backend/server.js"@, SERVER_JS@),
        ("backend/.env.example"@, ENV_EXAMPLE@),
        ("backend/models/User.js"@, USER_MODEL@),
        ("backend/routes/api.js"@, API_ROUTES@),
        ("frontend/package.json"@, FRONTEND_PACKAGE@),
        ("frontend/public/index.html"@, FRONTEND_INDEX@),
        ("frontend/src/index.js"@, FRONTEND_INDEX_JS@),
        ("frontend/src/App.js"@, FRONTEND_APP@),
        ("frontend/src/App.css"@, FRONTEND_CSS@),
        (".gitignore"@, GITIGNORE@),
    ]
}

/// Builds the plan of this template; it is the same on every call.
pub fn generate() -> (r: Vec<FileUnit>)
    ensures
        plan_view(r@) == plan_model(),
{
    let mut units: Vec<FileUnit> = Vec::new();
    units.push(FileUnit::new("README.md", ROOT_README));
    units.push(FileUnit::new("backend/package.json", BACKEND_PACKAGE));
    units.push(FileUnit::new("backend/server.js", SERVER_JS));
    units.push(FileUnit::new("backend/.env.example", ENV_EXAMPLE));
    units.push(FileUnit::new("backend/models/User.js", USER_MODEL));
    units.push(FileUnit::new("backend/routes/api.js", API_ROUTES));
    units.push(FileUnit::new("frontend/package.json", FRONTEND_PACKAGE));
    units.push(FileUnit::new("frontend/public/index.html", FRONTEND_INDEX));
    units.push(FileUnit::new("frontend/src/index.js", FRONTEND_INDEX_JS));
    units.push(FileUnit::new("frontend/src/App.js", FRONTEND_APP));
    units.push(FileUnit::new("frontend/src/App.css", FRONTEND_CSS));
    units.push(FileUnit::new(".gitignore", GITIGNORE));
    assert(plan_view(units@) =~= plan_model());
    units
}

proof fn lemma_paths_clean()
    ensures
        all_clean_from(plan_model(), 0),
{
    reveal_strlit("README.md");
    reveal_strlit("backend/package.json");
    reveal_strlit("backend/server.js");
    reveal_strlit("backend/.env.example");
    reveal_strlit("backend/models/User.js");
    reveal_strlit("backend/routes/api.js");
    reveal_strlit("frontend/package.json");
    reveal_strlit("frontend/public/index.html");
    reveal_strlit("frontend/src/index.js");
    reveal_strlit("frontend/src/App.js");
    reveal_strlit("frontend/src/App.css");
    reveal_strlit(".gitignore");
    reveal_with_fuel(clean_from, 40);
    reveal_with_fuel(all_clean_from, 14);
}

proof fn lemma_paths_distinct()
    ensures
        pairs_distinct_from(plan_model(), 0, 1),
{
    reveal_strlit("README.md");
    reveal_strlit("backend/package.json");
    reveal_strlit("backend/server.js");
    reveal_strlit("backend/.env.example");
    reveal_strlit("backend/models/User.js");
    reveal_strlit("backend/routes/api.js");
    reveal_strlit("frontend/package.json");
    reveal_strlit("frontend/public/index.html");
    reveal_strlit("frontend/src/index.js");
    reveal_strlit("frontend/src/App.js");
    reveal_strlit("frontend/src/App.css");
    reveal_strlit(".gitignore");
    assert("README.md"@.len() == 9);
    assert("backend/package.json"@.len() == 20);
    assert("backend/server.js"@.len() == 17);
    assert("backend/.env.example"@.len() == 20);
    assert("backend/models/User.js"@.len() == 22);
    assert("backend/routes/api.js"@.len() == 21);
    assert("frontend/package.json"@.len() == 21);
    assert("frontend/public/index.html"@.len() == 26);
    assert("frontend/src/index.js"@.len() == 21);
    assert("frontend/src/App.js"@.len() == 19);
    assert("frontend/src/App.css"@.len() == 20);
    assert(".gitignore"@.len() == 10);
    assert("backend/package.json"@[8] != "backend/.env.example"@[8]);
    assert("backend/package.json"@[0] != "frontend/src/App.css"@[0]);
    assert("backend/.env.example"@[0] != "frontend/src/App.css"@[0]);
    assert("backend/routes/api.js"@[0] != "frontend/package.json"@[0]);
    assert("backend/routes/api.js"@[0] != "frontend/src/index.js"@[0]);
    assert("frontend/package.json"@[9] != "frontend/src/index.js"@[9]);
    reveal_with_fuel(pairs_distinct_from, 92);
}

/// The plan of this template is non-empty, its paths are safe and pairwise distinct.
pub proof fn lemma_plan_is_valid()
    ensures
        plan_model().len() > 0,
        is_valid_plan(plan_model()),
{
    lemma_paths_clean();
    lemma_paths_distinct();
    lemma_checked_plan_is_valid(plan_model());
}

pub const ROOT_README: &'static str = r###"# MERN Stack Application

Full-stack application built with MongoDB, Express, React, and Node.js.

## Project Structure

```
├── backend/          # Express API server
│   ├── models/       # MongoDB models
│   ├── routes/       # API routes
│   └── server.js     # Entry point
└── frontend/         # React application
    ├── public/
    └── src/
```

## Setup

### Backend

```bash
cd backend
npm install
cp .env.example .env  # Configure your environment variables
npm start
```

The backend will run on `http://localhost:5000`

### Frontend

```bash
cd frontend
npm install
npm start
```

The frontend will run on `http://localhost:3000`

## Environment Variables

Create a `.env` file in the `backend` directory:

```
MONGODB_URI=mongodb://localhost:27017/myapp
PORT=5000
JWT_SECRET=your_secret_key
```

## Features

- RESTful API with Express
- MongoDB database integration
- React frontend with hooks
- Responsive design
- User authentication ready

## License

MIT
"###;

pub const BACKEND_PACKAGE: &'static str = r###"{
  "name": "mern-backend",
  "version": "1.0.0",
  "description": "Express backend for MERN app",
  "main": "server.js",
  "scripts": {
    "start": "node server.js",
    "dev": "nodemon server.js"
  },
  "dependencies": {
    "express": "^4.18.2",
    "mongoose": "^8.0.0",
    "cors": "^2.8.5",
    "dotenv": "^16.3.1",
    "bcryptjs": "^2.4.3",
    "jsonwebtoken": "^9.0.2"
  },
  "devDependencies": {
    "nodemon": "^3.0.1"
  }
}
"###;

pub const SERVER_JS: &'static str = r###"const express = require('express');
const mongoose = require('mongoose');
const cors = require('cors');
require('dotenv').config();

const app = express();
const PORT = process.env.PORT || 5000;

// Middleware
app.use(cors());
app.use(express.json());

// MongoDB Connection
mongoose.connect(process.env.MONGODB_URI || 'mongodb://localhost:27017/myapp', {
  useNewUrlParser: true,
  useUnifiedTopology: true,
})
.then(() => console.log('MongoDB connected'))
.catch(err => console.log('MongoDB connection error:', err));

// Routes
app.use('/api', require('./routes/api'));

app.get('/', (req, res) => {
  res.json({ message: 'Welcome to MERN API' });
});

app.listen(PORT, () => {
  console.log(`Server running on port ${PORT}`);
});
"###;

pub const ENV_EXAMPLE: &'static str = r###"MONGODB_URI=mongodb://localhost:27017/myapp
PORT=5000
JWT_SECRET=your_secret_key_here
"###;

pub const USER_MODEL: &'static str = r###"const mongoose = require('mongoose');

const userSchema = new mongoose.Schema({
  name: {
    type: String,
    required: true
  },
  email: {
    type: String,
    required: true,
    unique: true
  },
  password: {
    type: String,
    required: true
  },
  createdAt: {
    type: Date,
    default: Date.now
  }
});

module.exports = mongoose.model('User', userSchema);
"###;

pub const API_ROUTES: &'static str = r###"const express = require('express');
const router = express.Router();
const User = require('../models/User');

// Get all users
router.get('/users', async (req, res) => {
  try {
    const users = await User.find().select('-password');
    res.json(users);
  } catch (error) {
    res.status(500).json({ message: error.message });
  }
});

// Create user
router.post('/users', async (req, res) => {
  const user = new User({
    name: req.body.name,
    email: req.body.email,
    password: req.body.password // Remember to hash in production!
  });

  try {
    const newUser = await user.save();
    res.status(201).json(newUser);
  } catch (error) {
    res.status(400).json({ message: error.message });
  }
});

// Sample data endpoint
router.get('/data', (req, res) => {
  res.json({
    message: 'API is working!',
    data: ['Item 1', 'Item 2', 'Item 3']
  });
});

module.exports = router;
"###;

pub const FRONTEND_PACKAGE: &'static str = r###"{
  "name": "mern-frontend",
  "version": "0.1.0",
  "private": true,
  "proxy": "http://localhost:5000",
  "dependencies": {
    "react": "^18.2.0",
    "react-dom": "^18.2.0",
    "react-scripts": "5.0.1",
    "axios": "^1.6.0"
  },
  "scripts": {
    "start": "react-scripts start",
    "build": "react-scripts build",
    "test": "react-scripts test",
    "eject": "react-scripts eject"
  },
  "eslintConfig": {
    "extends": [
      "react-app"
    ]
  },
  "browserslist": {
    "production": [
      ">0.2%",
      "not dead",
      "not op_mini all"
    ],
    "development": [
      "last 1 chrome version",
      "last 1 firefox version",
      "last 1 safari version"
    ]
  }
}
"###;

pub const FRONTEND_INDEX: &'static str = r###"<!DOCTYPE html>
<html lang="en">
  <head>
    <meta charset="utf-8" />
    <meta name="viewport" content="width=device-width, initial-scale=1" />
    <meta name="theme-color" content="#000000" />
    <meta name="description" content="MERN Stack Application" />
    <title>MERN App</title>
  </head>
  <body>
    <noscript>You need to enable JavaScript to run this app.</noscript>
    <div id="root"></div>
  </body>
</html>
"###;

pub const FRONTEND_INDEX_JS: &'static str = r###"import React from 'react';
import ReactDOM from 'react-dom/client';
import './App.css';
import App from './App';

const root = ReactDOM.createRoot(document.getElementById('root'));
root.render(
  <React.StrictMode>
    <App />
  </React.StrictMode>
);
"###;

pub const FRONTEND_APP: &'static str = r###"import React, { useState, useEffect } from 'react';
import axios from 'axios';
import './App.css';

function App() {
  const [data, setData] = useState(null);
  const [loading, setLoading] = useState(true);

  useEffect(() => {
    fetchData();
  }, []);

  const fetchData = async () => {
    try {
      const response = await axios.get('/api/data');
      setData(response.data);
      setLoading(false);
    } catch (error) {
      console.error('Error fetching data:', error);
      setLoading(false);
    }
  };

  return (
    <div className="App">
      <header className="App-header">
        <h1>MERN Stack Application</h1>
        <div className="content">
          {loading ? (
            <p>Loading...</p>
          ) : data ? (
            <div>
              <p>{data.message}</p>
              <ul>
                {data.data && data.data.map((item, index) => (
                  <li key={index}>{item}</li>
                ))}
              </ul>
            </div>
          ) : (
            <p>No data available. Make sure the backend is running!</p>
          )}
        </div>
        <div className="info">
          <h3>Stack:</h3>
          <ul className="stack-list">
            <li>⚡ MongoDB - Database</li>
            <li>🚀 Express - Backend Framework</li>
            <li>⚛️ React - Frontend Library</li>
            <li>💚 Node.js - Runtime</li>
          </ul>
        </div>
      </header>
    </div>
  );
}

export default App;
"###;

pub const FRONTEND_CSS: &'static str = r###".App {
  text-align: center;
  min-height: 100vh;
  background: linear-gradient(135deg, #667eea 0%, #764ba2 100%);
}

.App-header {
  min-height: 100vh;
  display: flex;
  flex-direction: column;
  align-items: center;
  justify-content: center;
  font-size: calc(10px + 2vmin);
  color: white;
  padding: 20px;
}

.App h1 {
  margin-bottom: 2rem;
  font-size: 3rem;
}

.content {
  background: rgba(255, 255, 255, 0.1);
  padding: 2rem;
  border-radius: 10px;
  margin: 2rem 0;
  min-width: 400px;
}

.content ul {
  list-style: none;
  padding: 0;
}

.content li {
  padding: 0.5rem;
  background: rgba(255, 255, 255, 0.2);
  margin: 0.5rem 0;
  border-radius: 5px;
}

.info {
  background: rgba(255, 255, 255, 0.1);
  padding: 1.5rem;
  border-radius: 10px;
  margin-top: 2rem;
}

.stack-list {
  list-style: none;
  padding: 0;
  text-align: left;
}

.stack-list li {
  padding: 0.5rem;
  margin: 0.5rem 0;
  font-size: 1.1rem;
}

@media (max-width: 768px) {
  .App h1 {
    font-size: 2rem;
  }
  
  .content {
    min-width: auto;
    width: 90%;
  }
}
"###;

pub const GITIGNORE: &'static str = r###"# Dependencies
node_modules/
/backend/node_modules
/frontend/node_modules

# Environment
.env
/backend/.env
/frontend/.env

# Production
/frontend/build

# Misc
.DS_Store
*.log
npm-debug.log*
yarn-debug.log*
yarn-error.log*
"###;

} // verus!
