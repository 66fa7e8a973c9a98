//! The static documents the built-in responder serves.

use vstd::prelude::*;

verus! {

/// The form that creates an account.
pub const SIGNUP_PAGE: &'static str =
    "<!DOCTYPE html>\
    <html>\
    <head>\
        <title>🔐 Cipher - Sign Up</title>\
        <meta charset=\"utf-8\">\
        <meta name=\"viewport\" content=\"width=device-width, initial-scale=1\">\
        <style>\
            body { font-family: -apple-system, BlinkMacSystemFont, 'Segoe UI', sans-serif; margin: 0; padding: 20px; background: linear-gradient(135deg, #667eea 0%, #764ba2 100%); min-height: 100vh; color: white; }\
            .container { max-width: 400px; margin: 0 auto; background: rgba(255, 255, 255, 0.1); padding: 40px; border-radius: 20px; backdrop-filter: blur(10px); box-shadow: 0 8px 32px rgba(0, 0, 0, 0.3); }\
            h1 { font-size: 2.5em; margin-bottom: 30px; text-shadow: 2px 2px 4px rgba(0, 0, 0, 0.3); text-align: center; }\
            .form-group { margin-bottom: 20px; }\
            label { display: block; margin-bottom: 8px; font-weight: 500; }\
            input { width: 100%; padding: 12px; border: none; border-radius: 8px; background: rgba(255, 255, 255, 0.9); color: #333; }\
            button { width: 100%; padding: 12px; border: none; border-radius: 8px; background: #4CAF50; color: white; font-weight: bold; margin-top: 10px; }\
            .link { text-align: center; margin-top: 20px; }\
            a { color: #FFD700; text-decoration: none; }\
        </style>\
    </head>\
    <body>\
        <div class=\"container\">\
            <h1>🔐 Sign Up</h1>\
            <form>\
                <div class=\"form-group\">\
                    <label>Username:</label>\
                    <input type=\"text\" name=\"username\" required>\
                </div>\
                <div class=\"form-group\">\
                    <label>Email:</label>\
                    <input type=\"email\" name=\"email\" required>\
                </div>\
                <div class=\"form-group\">\
                    <label>Password:</label>\
                    <input type=\"password\" name=\"password\" required>\
                </div>\
                <button type=\"submit\">Create Account</button>\
            </form>\
            <div class=\"link\">\
                <a href=\"/users/sign_in\">Already have an account? Sign in</a>\
            </div>\
            <div class=\"link\">\
                <a href=\"/\">← Back to Home</a>\
            </div>\
        </div>\
    </body>\
    </html>";

/// The form that signs a user in.
pub const SIGNIN_PAGE: &'static str =
    "<!DOCTYPE html>\
    <html>\
    <head>\
        <title>🔐 Cipher - Sign In</title>\
        <meta charset=\"utf-8\">\
        <meta name=\"viewport\" content=\"width=device-width, initial-scale=1\">\
        <style>\
            body { font-family: -apple-system, BlinkMacSystemFont, 'Segoe UI', sans-serif; margin: 0; padding: 20px; background: linear-gradient(135deg, #667eea 0%, #764ba2 100%); min-height: 100vh; color: white; }\
            .container { max-width: 400px; margin: 0 auto; background: rgba(255, 255, 255, 0.1); padding: 40px; border-radius: 20px; backdrop-filter: blur(10px); box-shadow: 0 8px 32px rgba(0, 0, 0, 0.3); }\
            h1 { font-size: 2.5em; margin-bottom: 30px; text-shadow: 2px 2px 4px rgba(0, 0, 0, 0.3); text-align: center; }\
            .form-group { margin-bottom: 20px; }\
            label { display: block; margin-bottom: 8px; font-weight: 500; }\
            input { width: 100%; padding: 12px; border: none; border-radius: 8px; background: rgba(255, 255, 255, 0.9); color: #333; }\
            button { width: 100%; padding: 12px; border: none; border-radius: 8px; background: #2196F3; color: white; font-weight: bold; margin-top: 10px; }\
            .link { text-align: center; margin-top: 20px; }\
            a { color: #FFD700; text-decoration: none; }\
        </style>\
    </head>\
    <body>\
        <div class=\"container\">\
            <h1>🔐 Sign In</h1>\
            <form>\
                <div class=\"form-group\">\
                    <label>Username:</label>\
                    <input type=\"text\" name=\"username\" required>\
                </div>\
                <div class=\"form-group\">\
                    <label>Password:</label>\
                    <input type=\"password\" name=\"password\" required>\
                </div>\
                <button type=\"submit\">Sign In</button>\
            </form>\
            <div class=\"link\">\
                <a href=\"/users/sign_up\">Need an account? Sign up</a>\
            </div>\
            <div class=\"link\">\
                <a href=\"/\">← Back to Home</a>\
            </div>\
        </div>\
    </body>\
    </html>";

/// What local hosting is.
pub const LOCAL_HOSTING_PAGE: &'static str =
    "<!DOCTYPE html>\
    <html>\
    <head>\
        <title>🔐 Cipher - Local Hosting</title>\
        <meta charset=\"utf-8\">\
        <meta name=\"viewport\" content=\"width=device-width, initial-scale=1\">\
    </head>\
    <body>\
        <h1>🏠 Local Hosting</h1>\
        <p>Configure your device to contribute storage to the network and earn CPH tokens.</p>\
        <a href=\"/\">← Back to Home</a>\
    </body>\
    </html>";

/// What the host dashboard shows.
pub const HOST_DASHBOARD_PAGE: &'static str =
    "<!DOCTYPE html>\
    <html>\
    <head>\
        <title>🔐 Cipher - Host Dashboard</title>\
        <meta charset=\"utf-8\">\
        <meta name=\"viewport\" content=\"width=device-width, initial-scale=1\">\
    </head>\
    <body>\
        <h1>📊 Host Dashboard</h1>\
        <p>Monitor your hosting contributions and token earnings.</p>\
        <a href=\"/\">← Back to Home</a>\
    </body>\
    </html>";

/// The landing page.
pub const HOME_PAGE: &'static str =
    "<!DOCTYPE html>\
    <html>\
    <head>\
        <title>🔐 Cipher - Secure Decentralized Communication</title>\
        <meta charset=\"utf-8\">\
        <meta name=\"viewport\" content=\"width=device-width, initial-scale=1\">\
        <link rel=\"stylesheet\" href=\"/assets/application.css\">\
        <style>\
            /* Rails CSS will be embedded here - using simplified responsive design */\
            body { font-family: -apple-system, BlinkMacSystemFont, 'Segoe UI', sans-serif; margin: 0; padding: 0; background: linear-gradient(135deg, #667eea 0%, #764ba2 100%); min-height: 100vh; color: white; }\
            .container { max-width: 1200px; margin: 0 auto; padding: 20px; }\
            .welcome-hero { text-align: center; padding: 40px 0; }\
            .welcome-hero h2 { font-size: 3em; margin-bottom: 20px; text-shadow: 2px 2px 4px rgba(0, 0, 0, 0.3); }\
            .getting-started { margin-top: 30px; }\
            .btn { display: inline-block; padding: 15px 30px; margin: 10px; text-decoration: none; border-radius: 8px; font-weight: bold; transition: all 0.3s ease; }\
            .btn-primary { background: #4CAF50; color: white; }\
            .btn-secondary { background: #2196F3; color: white; }\
            .btn-large { font-size: 1.2em; padding: 20px 40px; }\
            .features { display: grid; grid-template-columns: repeat(auto-fit, minmax(280px, 1fr)); gap: 30px; margin: 60px 0; }\
            .feature { background: rgba(255, 255, 255, 0.1); padding: 30px; border-radius: 15px; backdrop-filter: blur(10px); }\
            .feature h3 { font-size: 1.5em; margin-bottom: 15px; }\
            .token-economy, .mission-statement { background: rgba(255, 255, 255, 0.1); padding: 40px; margin: 40px 0; border-radius: 20px; backdrop-filter: blur(10px); }\
            .glass-card { background: rgba(255, 255, 255, 0.1); border-radius: 15px; padding: 20px; margin: 20px 0; backdrop-filter: blur(10px); }\
            .glass-card--strong { background: rgba(255, 255, 255, 0.15); }\
            .glass-card--shadow-lg { box-shadow: 0 8px 32px rgba(0, 0, 0, 0.3); }\
            .glass-card--shadow-xl { box-shadow: 0 12px 40px rgba(0, 0, 0, 0.4); }\
            .token-mechanics { display: grid; grid-template-columns: repeat(auto-fit, minmax(300px, 1fr)); gap: 20px; }\
            .token-section { display: flex; align-items: center; gap: 20px; }\
            .token-icon { font-size: 3em; }\
            .token-benefits { margin: 15px 0; }\
            .token-actions { display: flex; gap: 15px; flex-wrap: wrap; margin-top: 20px; }\
            .btn-primary-token { background: #4CAF50; color: white; padding: 12px 24px; border-radius: 8px; text-decoration: none; font-weight: bold; }\
            .btn-secondary-token { background: #2196F3; color: white; padding: 12px 24px; border-radius: 8px; text-decoration: none; font-weight: bold; }\
            .btn-outline-token { background: transparent; color: white; border: 2px solid white; padding: 12px 24px; border-radius: 8px; text-decoration: none; font-weight: bold; }\
            .mission-principles { display: grid; grid-template-columns: repeat(auto-fit, minmax(250px, 1fr)); gap: 20px; margin: 30px 0; }\
            .principle { display: flex; align-items: center; gap: 15px; padding: 20px; background: rgba(255, 255, 255, 0.1); border-radius: 10px; }\
            .principle-icon { font-size: 2em; }\
            .mission-call-to-action { text-align: center; margin-top: 40px; }\
            .mission-links { display: flex; gap: 15px; justify-content: center; flex-wrap: wrap; margin-top: 20px; }\
            .btn-outline { background: transparent; color: white; border: 2px solid white; }\
            @media (max-width: 768px) {\
                .container { padding: 15px; }\
                .welcome-hero h2 { font-size: 2em; }\
                .features { grid-template-columns: 1fr; }\
                .token-mechanics { grid-template-columns: 1fr; }\
                .mission-principles { grid-template-columns: 1fr; }\
                .token-section { flex-direction: column; text-align: center; }\
                .principle { flex-direction: column; text-align: center; }\
            }\
        </style>\
    </head>\
    <body>\
        <div class=\"container\">\
            <div class=\"welcome-hero\">\
                <h2>🔐 Cipher</h2>\
                <p>Secure, decentralized communication for the modern web</p>\
                <div class=\"getting-started\">\
                    <a href=\"/users/new\" class=\"btn btn-primary btn-large\">Create Your Identity</a>\
                </div>\
            </div>\
            \
            <div class=\"features\">\
                <div class=\"feature\">\
                    <h3>🔐 End-to-End Encryption</h3>\
                    <p>Messages are encrypted before sending. Only you and your recipients can read them.</p>\
                </div>\
                <div class=\"feature\">\
                    <h3>🌐 Peer-to-Peer</h3>\
                    <p>Direct connections between users. No servers required.</p>\
                </div>\
                <div class=\"feature\">\
                    <h3>🔑 Self-Sovereign Identity</h3>\
                    <p>You control your identity. No external authorities involved.</p>\
                </div>\
                <div class=\"feature\">\
                    <h3>📱 Decentralized</h3>\
                    <p>No central authority. Your communications stay independent.</p>\
                </div>\
            </div>\
            \
            <section class=\"token-economy\">\
                <div class=\"cph-hero-well glass-card glass-card--strong glass-card--shadow-xl\">\
                    <h2>🛡️ Cipher Token (CPH)</h2>\
                    <div class=\"token-intro\">\
                        <p class=\"token-lead\">A lightweight system to prevent network abuse. Contribute storage to receive tokens, use tokens for content access.</p>\
                    </div>\
                </div>\
                \
                <div class=\"token-mechanics\">\
                    <div class=\"token-section glass-card glass-card--strong glass-card--shadow-lg\">\
                        <div class=\"token-icon\">🏠</div>\
                        <div class=\"token-info\">\
                            <h3>Contribute by Hosting</h3>\
                            <p>Provide secure storage for encrypted files and receive CPH tokens for abuse prevention.</p>\
                            <ul class=\"token-benefits\">\
                                <li>Receive tokens for network participation</li>\
                                <li>Help prevent network abuse</li>\
                                <li>Support system sustainability</li>\
                            </ul>\
                        </div>\
                    </div>\
                    \
                    <div class=\"token-section glass-card glass-card--strong glass-card--shadow-lg\">\
                        <div class=\"token-icon\">👀</div>\
                        <div class=\"token-info\">\
                            <h3>Access Content</h3>\
                            <p>Access files and media using CPH tokens to prevent abuse at 1 CPH per KB.</p>\
                            <ul class=\"token-benefits\">\
                                <li>1 CPH = 1 KB of data</li>\
                                <li>Usage-based access control</li>\
                                <li>Prevents spam and abuse</li>\
                            </ul>\
                        </div>\
                    </div>\
                </div>\
                \
                <div class=\"token-getting-started glass-card glass-card--strong\">\
                    <h3>Ready to Join the Network?</h3>\
                    <p>Start contributing to the decentralized storage network to receive CPH tokens.</p>\
                    <div class=\"token-actions\">\
                        <a href=\"/users/local_hosting\" class=\"btn-primary-token\">Start Local Hosting</a>\
                        <a href=\"/users/host_dashboard\" class=\"btn-secondary-token\">Become a Network Host</a>\
                        <a href=\"#\" class=\"btn-outline-token\">Connect Wallet</a>\
                    </div>\
                </div>\
            </section>\
            \
            <section class=\"mission-statement glass-card glass-card--strong glass-card--shadow-xl\">\
                <h2>🛡️ Our Mission</h2>\
                <p class=\"mission-lead\">Private messaging without surveillance or data collection.</p>\
                \
                <div class=\"mission-principles\">\
                    <div class=\"principle\">\
                        <div class=\"principle-icon\">🚫</div>\
                        <div class=\"principle-content\">\
                            <h3>No Servers, No Surveillance</h3>\
                            <p>Messages go directly between users. No servers store your conversations.</p>\
                        </div>\
                    </div>\
                    \
                    <div class=\"principle\">\
                        <div class=\"principle-icon\">🔒</div>\
                        <div class=\"principle-content\">\
                            <h3>No Data Harvesting</h3>\
                            <p>We can't read your messages or track you. Your data stays yours.</p>\
                        </div>\
                    </div>\
                    \
                    <div class=\"principle\">\
                        <div class=\"principle-icon\">📖</div>\
                        <div class=\"principle-content\">\
                            <h3>Open Source Transparency</h3>\
                            <p>All code is public. Audit it, fork it, improve it.</p>\
                        </div>\
                    </div>\
                    \
                    <div class=\"principle\">\
                        <div class=\"principle-icon\">❤️</div>\
                        <div class=\"principle-content\">\
                            <h3>Connect with Loved Ones</h3>\
                            <p>Share files and messages privately with friends and family.</p>\
                        </div>\
                    </div>\
                </div>\
                \
                <div class=\"mission-call-to-action glass-card glass-card--strong glass-card--shadow-lg\">\
                    <p class=\"mission-cta-text\"><strong>Private messaging by design.</strong> No tracking, no data collection, no surveillance.</p>\
                    <div class=\"mission-links\">\
                        <a href=\"https://github.com/anthropics/cipher\" target=\"_blank\" class=\"btn btn-outline\">📖 View Source Code</a>\
                        <a href=\"/users/new\" class=\"btn btn-secondary\">🚀 Get Started</a>\
                    </div>\
                </div>\
            </section>\
        </div>\
    </body>\
    </html>";

/// Shown while the backend is still starting.
pub const STARTING_PAGE: &'static str =
    "<!DOCTYPE html>\
    <html>\
    <head>\
        <title>Cipher P2P Social Network</title>\
        <meta charset=\"utf-8\">\
        <meta name=\"viewport\" content=\"width=device-width, initial-scale=1\">\
        <style>\
            body { font-family: -apple-system, BlinkMacSystemFont, 'Segoe UI', sans-serif; margin: 0; padding: 20px; background: #f5f5f5; }\
            .container { max-width: 600px; margin: 0 auto; background: white; padding: 40px; border-radius: 8px; box-shadow: 0 2px 10px rgba(0,0,0,0.1); }\
            h1 { color: #333; text-align: center; margin-bottom: 20px; }\
            p { color: #666; line-height: 1.6; text-align: center; }\
            .status { background: #ffe8e8; padding: 15px; border-radius: 6px; color: #d32f2f; margin: 20px 0; }\
        </style>\
    </head>\
    <body>\
        <div class=\"container\">\
            <h1>🔐 Cipher</h1>\
            <div class=\"status\">⚠️ Rails server starting...</div>\
            <p>Your personal Cipher server is starting up.</p>\
            <p>Please wait a moment and refresh the page.</p>\
        </div>\
    </body>\
    </html>";

} // verus!
